//! Which input devices the daemon manages.
//!
//! A device is managed when it looks like a keyboard (it reports key
//! events, has Enter or Space, and has no relative pointer axes, which
//! leaves out mice with buttons, tablets, lid switches and button-only
//! devices) and is not one of the daemon's own virtual devices. The
//! virtual keyboard that re-emits keys must know every key code that any
//! managed keyboard can send, so the key sets of the managed devices are
//! merged.

use vstd::prelude::*;
use evdev::{AttributeSet, KeyCode};
use crate::codes::{KEY_CNT, KEY_ENTER, KEY_SPACE, REL_X, REL_Y};

verus! {

/// What a device reports it can send.
#[derive(Debug)]
pub struct DeviceCaps {
    /// The device reports key events (`EV_KEY`).
    pub supports_key_events: bool,
    /// The key codes it supports, when it reports any.
    pub keys: Option<Vec<u16>>,
    /// The relative axes it supports, when it reports any.
    pub relative_axes: Option<Vec<u16>>,
}

/// An input device found at startup: its name (empty when it has none)
/// and its capabilities.
#[derive(Debug)]
pub struct DeviceInfo {
    pub name: String,
    pub caps: DeviceCaps,
}

/// The keyboard heuristic: key events with a typing key (Enter or Space),
/// and no relative pointer axis.
pub open spec fn looks_like_keyboard(caps: DeviceCaps) -> bool {
    &&& caps.supports_key_events
    &&& caps.keys is Some
    &&& (caps.keys.unwrap()@.contains(KEY_ENTER) || caps.keys.unwrap()@.contains(KEY_SPACE))
    &&& !(caps.relative_axes is Some && (caps.relative_axes.unwrap()@.contains(REL_X)
        || caps.relative_axes.unwrap()@.contains(REL_Y)))
}

/// The name prefix of the daemon's own virtual devices.
pub open spec fn own_prefix() -> Seq<char> {
    "mousekeys virtual"@
}

/// A device of the daemon itself (one left over by an earlier instance).
pub open spec fn is_own_device(name: Seq<char>) -> bool {
    own_prefix().len() <= name.len() && name.subrange(0, own_prefix().len() as int) == own_prefix()
}

/// A device that the daemon manages.
pub open spec fn managed(d: DeviceInfo) -> bool {
    looks_like_keyboard(d.caps) && !is_own_device(d.name@)
}

/// Key code `k` is supported by one of the managed devices among the
/// first `upto` of `devices`.
pub open spec fn managed_key(devices: Seq<DeviceInfo>, upto: int, k: u16) -> bool {
    exists|j: int|
        0 <= j < upto && #[trigger] managed(devices[j]) && devices[j].caps.keys.unwrap()@.contains(
            k,
        )
}

/// A set of key codes, kept in evdev's `AttributeSet<KeyCode>` (a bit set
/// over all key codes), which is what the virtual keyboard is built from.
/// Contracts speak of its contents, [`key_set_codes`], only.
#[verifier::external_body]
#[derive(Debug)]
pub struct KeySet {
    pub codes: AttributeSet<KeyCode>,
}

/// The key codes in a [`KeySet`].
pub uninterp spec fn key_set_codes(set: KeySet) -> Set<u16>;

impl KeySet {
    /// An empty set: `AttributeSet::new` (evdev), which starts with every
    /// bit clear.
    #[verifier::external_body]
    fn new() -> (set: KeySet)
        ensures
            key_set_codes(set) == Set::<u16>::empty(),
    {
        KeySet { codes: AttributeSet::new() }
    }

    /// Add a key code: `AttributeSetRef::insert` (evdev), which sets the bit
    /// of `KeyCode::new(code)` and leaves the others. The bit slice has
    /// `KEY_CNT` bits and setting a bit beyond it panics, hence the
    /// precondition.
    #[verifier::external_body]
    fn insert(&mut self, code: u16)
        requires
            code < KEY_CNT,
        ensures
            key_set_codes(*final(self)) == key_set_codes(*old(self)).insert(code),
    {
        self.codes.insert(KeyCode::new(code));
    }
}

/// The devices to manage, by position in the list that was examined, and
/// the merged key codes they support.
#[derive(Debug)]
pub struct Selection {
    pub indices: Vec<usize>,
    pub keys: KeySet,
}

/// Why no device can be managed.
#[derive(Debug, Clone, Copy, PartialEq, Eq, Structural)]
pub enum DiscoverError {
    /// No device passed the keyboard heuristic.
    NoKeyboards,
}

fn contains_code(codes: &Vec<u16>, code: u16) -> (found: bool)
    ensures
        found == codes@.contains(code),
{
    let mut i: usize = 0;
    while i < codes.len()
        invariant
            i <= codes.len(),
            forall|j: int| 0 <= j < i ==> codes@[j] != code,
        decreases codes.len() - i,
    {
        if codes[i] == code {
            assert(codes@[i as int] == code);
            return true;
        }
        i = i + 1;
    }
    false
}

/// Whether a device with these capabilities looks like a keyboard.
pub fn is_keyboard(caps: &DeviceCaps) -> (b: bool)
    ensures
        b == looks_like_keyboard(*caps),
{
    if !caps.supports_key_events {
        return false;
    }
    let has_typing_key = match &caps.keys {
        None => {
            return false;
        },
        Some(keys) => contains_code(keys, KEY_ENTER) || contains_code(keys, KEY_SPACE),
    };
    if !has_typing_key {
        return false;
    }
    if let Some(rel) = &caps.relative_axes {
        if contains_code(rel, REL_X) || contains_code(rel, REL_Y) {
            return false;
        }
    }
    true
}

/// Whether a device name is that of one of the daemon's own virtual
/// devices.
pub fn is_own_name(name: &str) -> (b: bool)
    ensures
        b == is_own_device(name@),
{
    let prefix = "mousekeys virtual";
    let plen = prefix.unicode_len();
    let nlen = name.unicode_len();
    if nlen < plen {
        return false;
    }
    let mut i: usize = 0;
    while i < plen
        invariant
            prefix@ == own_prefix(),
            plen == prefix@.len(),
            nlen == name@.len(),
            plen <= nlen,
            i <= plen,
            forall|j: int| 0 <= j < i ==> name@[j] == prefix@[j],
        decreases plen - i,
    {
        if name.get_char(i) != prefix.get_char(i) {
            assert(name@.subrange(0, plen as int)[i as int] != prefix@[i as int]);
            return false;
        }
        i = i + 1;
    }
    assert(name@.subrange(0, plen as int) =~= prefix@);
    true
}

/// Every key code reported by a device is a kernel key code.
pub open spec fn valid_key_codes(devices: Seq<DeviceInfo>) -> bool {
    forall|i: int, k: int|
        0 <= i < devices.len() && devices[i].caps.keys is Some && 0 <= k
            < devices[i].caps.keys.unwrap()@.len() ==> #[trigger] devices[i].caps.keys.unwrap()@[k]
            < KEY_CNT
}

/// Choose the devices to manage among `devices` and merge their key
/// codes. Fails when no device qualifies.
pub fn select_keyboards(devices: &Vec<DeviceInfo>) -> (res: Result<Selection, DiscoverError>)
    requires
        valid_key_codes(devices@),
    ensures
        res is Err <==> forall|i: int| 0 <= i < devices@.len() ==> !managed(#[trigger] devices@[i]),
        res is Err ==> res == Err::<Selection, DiscoverError>(DiscoverError::NoKeyboards),
        res matches Ok(sel) ==> {
            &&& forall|j: int|
                0 <= j < sel.indices@.len() ==> #[trigger] sel.indices@[j] < devices@.len()
                    && managed(devices@[sel.indices@[j] as int])
            &&& forall|a: int, b: int|
                0 <= a < b < sel.indices@.len() ==> sel.indices@[a] < sel.indices@[b]
            &&& forall|i: int|
                0 <= i < devices@.len() && managed(#[trigger] devices@[i])
                    ==> sel.indices@.contains(i as usize)
            &&& key_set_codes(sel.keys) == Set::new(
                |k: u16| managed_key(devices@, devices@.len() as int, k),
            )
        },
{
    let mut indices: Vec<usize> = Vec::new();
    let mut keys = KeySet::new();
    let n = devices.len();
    let mut i: usize = 0;
    while i < n
        invariant
            n == devices@.len(),
            i <= n,
            valid_key_codes(devices@),
            forall|j: int|
                0 <= j < indices@.len() ==> #[trigger] indices@[j] < i && managed(
                    devices@[indices@[j] as int],
                ),
            forall|a: int, b: int| 0 <= a < b < indices@.len() ==> indices@[a] < indices@[b],
            forall|x: int| 0 <= x < i && managed(#[trigger] devices@[x]) ==> indices@.contains(x as usize),
            forall|k: u16| key_set_codes(keys).contains(k) <==> managed_key(devices@, i as int, k),
        decreases n - i,
    {
        let d = &devices[i];
        let take = is_keyboard(&d.caps) && !is_own_name(d.name.as_str());
        if take {
            match &d.caps.keys {
                Some(dk) => {
                    let m = dk.len();
                    let mut t: usize = 0;
                    while t < m
                        invariant
                            m == dk@.len(),
                            t <= m,
                            i < n,
                            n == devices@.len(),
                            valid_key_codes(devices@),
                            devices@[i as int].caps.keys == Some(*dk),
                            forall|k: u16|
                                key_set_codes(keys).contains(k) <==> (managed_key(devices@, i as int, k)
                                    || dk@.subrange(0, t as int).contains(k)),
                        decreases m - t,
                    {
                        let code = dk[t];
                        assert(devices@[i as int].caps.keys.unwrap()@[t as int] < KEY_CNT);
                        let ghost before = key_set_codes(keys);
                        keys.insert(code);
                        assert forall|k: u16| dk@.subrange(0, t + 1).contains(k) <==> (dk@.subrange(0, t as int).contains(k) || k == code) by {
                            if dk@.subrange(0, t + 1).contains(k) && k != code {
                                let w = choose|w: int| 0 <= w < t + 1 && #[trigger] dk@.subrange(0, t + 1)[w] == k;
                                assert(dk@.subrange(0, t as int)[w] == k);
                            }
                            if dk@.subrange(0, t as int).contains(k) {
                                let w = choose|w: int| 0 <= w < t && #[trigger] dk@.subrange(0, t as int)[w] == k;
                                assert(dk@.subrange(0, t + 1)[w] == k);
                            }
                            if k == code {
                                assert(dk@.subrange(0, t + 1)[t as int] == k);
                            }
                        }
                        assert forall|k: u16| key_set_codes(keys).contains(k) <==> (managed_key(devices@, i as int, k)
                                    || dk@.subrange(0, t + 1).contains(k)) by {
                            assert(before.contains(k) <==> (managed_key(devices@, i as int, k)
                                    || dk@.subrange(0, t as int).contains(k)));
                        }
                        t = t + 1;
                    }
                    assert(dk@.subrange(0, m as int) =~= dk@);
                },
                None => {},
            }
            assert(managed(devices@[i as int]));
            assert forall|k: u16| key_set_codes(keys).contains(k) <==> managed_key(devices@, i + 1, k) by {
                if managed_key(devices@, i + 1, k) && !managed_key(devices@, i as int, k) {
                    let j = choose|j: int|
                        0 <= j < i + 1 && #[trigger] managed(devices@[j]) && devices@[j].caps.keys.unwrap()@.contains(k);
                    assert(j == i);
                }
                if key_set_codes(keys).contains(k) && !managed_key(devices@, i as int, k) {
                    assert(managed(devices@[i as int]) && devices@[i as int].caps.keys.unwrap()@.contains(k));
                }
            }
            let ghost old_idx = indices@;
            indices.push(i);
            assert(indices@[indices@.len() - 1] == i);
            assert forall|x: int| 0 <= x < i + 1 && managed(#[trigger] devices@[x]) implies indices@.contains(x as usize) by {
                if x < i {
                    assert(old_idx.contains(x as usize));
                    let w = choose|w: int| 0 <= w < old_idx.len() && #[trigger] old_idx[w] == x as usize;
                    assert(indices@[w] == x as usize);
                }
            }
        } else {
            assert(!managed(devices@[i as int]));
            assert forall|k: u16| managed_key(devices@, i + 1, k) == managed_key(devices@, i as int, k) by {
                if managed_key(devices@, i + 1, k) {
                    let j = choose|j: int|
                        0 <= j < i + 1 && #[trigger] managed(devices@[j]) && devices@[j].caps.keys.unwrap()@.contains(k);
                    assert(j != i);
                }
            }
        }
        i = i + 1;
    }
    if indices.len() == 0 {
        assert forall|x: int| 0 <= x < devices@.len() implies !managed(#[trigger] devices@[x]) by {
            if managed(devices@[x]) {
                assert(indices@.contains(x as usize));
            }
        }
        return Err(DiscoverError::NoKeyboards);
    }
    assert(managed(devices@[indices@[0] as int]));
    assert(key_set_codes(keys) =~= Set::new(|k: u16| managed_key(devices@, devices@.len() as int, k)));
    Ok(Selection { indices, keys })
}

} // verus!
