use std::collections::HashMap;
use vstd::prelude::*;

verus! {

broadcast use vstd::std_specs::hash::group_hash_axioms;

/// The dials and buttons of a MIDI device that a parameter can be bound to.
#[derive(Clone, Copy, Debug, PartialEq, Eq, Hash, PartialOrd, Ord, Structural)]
pub enum KeyBoardKey {
    WaveSelection,
    Overtone(u8),
    FadeInDuration,
    FadeInShape,
    FadeOutDuration,
    FadeOutShape,
    Gain,
    Record,
    Play,
    Stop,
    TransposeUp,
    TransposeDown,
    Parameter,
    Modulation,
    ModulationSpeed,
    ModulationIntensity,
    Duration,
    Activate,
    Tempo,
}

/// A request from a control surface about the controller of a key.
#[derive(Clone, Copy, Debug, PartialEq, Eq, Structural)]
pub enum KeyBoardKeySetter {
    /// Bind the next controller that moves to the key
    Bind(KeyBoardKey),
    /// Unbind the controller of the key
    Clear(KeyBoardKey),
}

/// A number that identifies each logical key; distinct keys get distinct numbers.
pub open spec fn key_code(k: KeyBoardKey) -> u16 {
    match k {
        KeyBoardKey::WaveSelection => 0,
        KeyBoardKey::FadeInDuration => 1,
        KeyBoardKey::FadeInShape => 2,
        KeyBoardKey::FadeOutDuration => 3,
        KeyBoardKey::FadeOutShape => 4,
        KeyBoardKey::Gain => 5,
        KeyBoardKey::Record => 6,
        KeyBoardKey::Play => 7,
        KeyBoardKey::Stop => 8,
        KeyBoardKey::TransposeUp => 9,
        KeyBoardKey::TransposeDown => 10,
        KeyBoardKey::Parameter => 11,
        KeyBoardKey::Modulation => 12,
        KeyBoardKey::ModulationSpeed => 13,
        KeyBoardKey::ModulationIntensity => 14,
        KeyBoardKey::Duration => 15,
        KeyBoardKey::Activate => 16,
        KeyBoardKey::Tempo => 17,
        KeyBoardKey::Overtone(n) => (32 + n) as u16,
    }
}

/// Distinct keys have distinct codes.
pub proof fn lemma_key_code_injective(a: KeyBoardKey, b: KeyBoardKey)
    ensures
        key_code(a) == key_code(b) ==> a == b,
{
}

impl KeyBoardKey {
    /// The code of this key, see `key_code`.
    pub fn code(&self) -> (r: u16)
        ensures
            r == key_code(*self),
    {
        match self {
            KeyBoardKey::WaveSelection => 0,
            KeyBoardKey::FadeInDuration => 1,
            KeyBoardKey::FadeInShape => 2,
            KeyBoardKey::FadeOutDuration => 3,
            KeyBoardKey::FadeOutShape => 4,
            KeyBoardKey::Gain => 5,
            KeyBoardKey::Record => 6,
            KeyBoardKey::Play => 7,
            KeyBoardKey::Stop => 8,
            KeyBoardKey::TransposeUp => 9,
            KeyBoardKey::TransposeDown => 10,
            KeyBoardKey::Parameter => 11,
            KeyBoardKey::Modulation => 12,
            KeyBoardKey::ModulationSpeed => 13,
            KeyBoardKey::ModulationIntensity => 14,
            KeyBoardKey::Duration => 15,
            KeyBoardKey::Activate => 16,
            KeyBoardKey::Tempo => 17,
            KeyBoardKey::Overtone(n) => 32 + *n as u16,
        }
    }
}

/// The bindings that remain of `m` once every controller bound to `key` is unbound.
pub open spec fn without_key(m: Map<u8, KeyBoardKey>, key: KeyBoardKey) -> Map<u8, KeyBoardKey> {
    Map::new(|c: u8| m.contains_key(c) && m[c] != key, |c: u8| m[c])
}

/// The bindings after `key` is bound to controller `control`: the controller that
/// `key` had before is unbound, and `control` now stands for `key` alone.
pub open spec fn bind(m: Map<u8, KeyBoardKey>, key: KeyBoardKey, control: u8) -> Map<u8, KeyBoardKey> {
    without_key(m, key).insert(control, key)
}

/// Each logical key is bound to at most one controller.
pub open spec fn keys_unique(m: Map<u8, KeyBoardKey>) -> bool {
    forall|a: u8, b: u8|
        m.contains_key(a) && m.contains_key(b) && #[trigger] m[a] == #[trigger] m[b] ==> a == b
}

/// The two-way table between MIDI controller numbers and logical keys.
pub struct HardWare {
    midi_keys_mapping: HashMap<u8, KeyBoardKey>,
    kb_keys_mapping: HashMap<u16, u8>,
}

impl HardWare {
    /// The bindings, from controller number to logical key.
    pub closed spec fn controls(&self) -> Map<u8, KeyBoardKey> {
        self.midi_keys_mapping@
    }

    /// The two tables describe the same bindings.
    pub closed spec fn wf(&self) -> bool {
        &&& forall|c: u8| #[trigger]
            self.midi_keys_mapping@.contains_key(c) ==> {
                &&& self.kb_keys_mapping@.contains_key(key_code(self.midi_keys_mapping@[c]))
                &&& self.kb_keys_mapping@[key_code(self.midi_keys_mapping@[c])] == c
            }
        &&& forall|k: u16| #[trigger]
            self.kb_keys_mapping@.contains_key(k) ==> {
                &&& self.midi_keys_mapping@.contains_key(self.kb_keys_mapping@[k])
                &&& key_code(self.midi_keys_mapping@[self.kb_keys_mapping@[k]]) == k
            }
    }

    /// A well-formed table binds each key to one controller at most.
    pub proof fn lemma_keys_unique(&self)
        requires
            self.wf(),
        ensures
            keys_unique(self.controls()),
    {
        assert forall|a: u8, b: u8|
            self.controls().contains_key(a) && self.controls().contains_key(b)
                && #[trigger] self.controls()[a] == #[trigger] self.controls()[b] implies a == b by {
            assert(self.midi_keys_mapping@.contains_key(a));
            assert(self.midi_keys_mapping@.contains_key(b));
        }
    }

    /// An empty table.
    pub fn new() -> (r: HardWare)
        ensures
            r.wf(),
            r.controls() == Map::<u8, KeyBoardKey>::empty(),
    {
        HardWare { midi_keys_mapping: HashMap::new(), kb_keys_mapping: HashMap::new() }
    }

    /// The logical key bound to a controller, if any.
    pub fn get_keyboard_key(&self, midi_control: u8) -> (r: Option<KeyBoardKey>)
        ensures
            r == (if self.controls().contains_key(midi_control) {
                Some(self.controls()[midi_control])
            } else {
                None
            }),
    {
        match self.midi_keys_mapping.get(&midi_control) {
            Some(k) => Some(*k),
            None => None,
        }
    }

    /// Remove every binding.
    pub fn clear_all(&mut self)
        ensures
            final(self).wf(),
            final(self).controls() == Map::<u8, KeyBoardKey>::empty(),
    {
        self.midi_keys_mapping.clear();
        self.kb_keys_mapping.clear();
    }

    /// Unbind the controller bound to `key`, if any.
    pub fn clear_key(&mut self, key: KeyBoardKey)
        requires
            old(self).wf(),
        ensures
            final(self).wf(),
            final(self).controls() == without_key(old(self).controls(), key),
    {
        proof {
            self.lemma_keys_unique();
        }
        let code = key.code();
        match self.kb_keys_mapping.get(&code) {
            Some(v) => {
                let c = *v;
                self.midi_keys_mapping.remove(&c);
                self.kb_keys_mapping.remove(&code);
                proof {
                    lemma_unbind(old(self).controls(), key, c);
                }
            },
            None => {
                assert(old(self).controls() =~= without_key(old(self).controls(), key)) by {
                    assert forall|c: u8| old(self).controls().contains_key(c) implies
                        old(self).controls()[c] != key by {
                        assert(old(self).midi_keys_mapping@.contains_key(c));
                    }
                }
            },
        }
    }

    /// Bind `key` to the controller `midi_key`. The controller that `key` had
    /// before becomes unbound, and so does the key that `midi_key` had before.
    pub fn update_key(&mut self, key: KeyBoardKey, midi_key: u8)
        requires
            old(self).wf(),
        ensures
            final(self).wf(),
            final(self).controls() == bind(old(self).controls(), key, midi_key),
    {
        self.clear_key(key);
        let ghost mid = self.controls();
        match self.midi_keys_mapping.get(&midi_key) {
            Some(previous) => {
                let code = previous.code();
                self.kb_keys_mapping.remove(&code);
            },
            None => {},
        }
        self.midi_keys_mapping.insert(midi_key, key);
        self.kb_keys_mapping.insert(key.code(), midi_key);
        proof {
            assert forall|c: u8| #[trigger] self.midi_keys_mapping@.contains_key(c) implies {
                &&& self.kb_keys_mapping@.contains_key(key_code(self.midi_keys_mapping@[c]))
                &&& self.kb_keys_mapping@[key_code(self.midi_keys_mapping@[c])] == c
            } by {
                if c != midi_key {
                    lemma_key_code_injective(self.midi_keys_mapping@[c], key);
                    assert(mid.contains_key(c));
                    if mid.contains_key(midi_key) {
                        lemma_key_code_injective(mid[c], mid[midi_key]);
                    }
                }
            }
            assert forall|k: u16| #[trigger] self.kb_keys_mapping@.contains_key(k) implies {
                &&& self.midi_keys_mapping@.contains_key(self.kb_keys_mapping@[k])
                &&& key_code(self.midi_keys_mapping@[self.kb_keys_mapping@[k]]) == k
            } by {
                if k != key_code(key) {
                    lemma_key_code_injective(key, mid[self.kb_keys_mapping@[k]]);
                }
            }
            assert(self.controls() =~= bind(old(self).controls(), key, midi_key));
        }
    }
}

/// The bindings of the table that a device starts with.
pub open spec fn default_controls() -> Map<u8, KeyBoardKey> {
    map![
        113u8 => KeyBoardKey::WaveSelection,
        74u8 => KeyBoardKey::Overtone(0),
        71u8 => KeyBoardKey::Overtone(1),
        91u8 => KeyBoardKey::Overtone(2),
        93u8 => KeyBoardKey::Overtone(3),
        73u8 => KeyBoardKey::Overtone(4),
        72u8 => KeyBoardKey::Overtone(5),
        5u8 => KeyBoardKey::Overtone(6),
        84u8 => KeyBoardKey::Overtone(7),
        7u8 => KeyBoardKey::Overtone(8),
        10u8 => KeyBoardKey::FadeInDuration,
        2u8 => KeyBoardKey::FadeInShape,
        75u8 => KeyBoardKey::FadeOutDuration,
        76u8 => KeyBoardKey::FadeOutShape,
        95u8 => KeyBoardKey::Gain,
        118u8 => KeyBoardKey::Record,
        117u8 => KeyBoardKey::Play,
        116u8 => KeyBoardKey::Stop,
    ]
}

impl Default for HardWare {
    /// The table a device starts with.
    fn default() -> (r: HardWare)
        ensures
            r.wf(),
            r.controls() == default_controls(),
    {
        let mut midi: HashMap<u8, KeyBoardKey> = HashMap::new();
        let mut kb: HashMap<u16, u8> = HashMap::new();
        midi.insert(113, KeyBoardKey::WaveSelection);
        midi.insert(74, KeyBoardKey::Overtone(0));
        midi.insert(71, KeyBoardKey::Overtone(1));
        midi.insert(91, KeyBoardKey::Overtone(2));
        midi.insert(93, KeyBoardKey::Overtone(3));
        midi.insert(73, KeyBoardKey::Overtone(4));
        midi.insert(72, KeyBoardKey::Overtone(5));
        midi.insert(5, KeyBoardKey::Overtone(6));
        midi.insert(84, KeyBoardKey::Overtone(7));
        midi.insert(7, KeyBoardKey::Overtone(8));
        midi.insert(10, KeyBoardKey::FadeInDuration);
        midi.insert(2, KeyBoardKey::FadeInShape);
        midi.insert(75, KeyBoardKey::FadeOutDuration);
        midi.insert(76, KeyBoardKey::FadeOutShape);
        midi.insert(95, KeyBoardKey::Gain);
        midi.insert(118, KeyBoardKey::Record);
        midi.insert(117, KeyBoardKey::Play);
        midi.insert(116, KeyBoardKey::Stop);
        kb.insert(KeyBoardKey::WaveSelection.code(), 113);
        kb.insert(KeyBoardKey::Overtone(0).code(), 74);
        kb.insert(KeyBoardKey::Overtone(1).code(), 71);
        kb.insert(KeyBoardKey::Overtone(2).code(), 91);
        kb.insert(KeyBoardKey::Overtone(3).code(), 93);
        kb.insert(KeyBoardKey::Overtone(4).code(), 73);
        kb.insert(KeyBoardKey::Overtone(5).code(), 72);
        kb.insert(KeyBoardKey::Overtone(6).code(), 5);
        kb.insert(KeyBoardKey::Overtone(7).code(), 84);
        kb.insert(KeyBoardKey::Overtone(8).code(), 7);
        kb.insert(KeyBoardKey::FadeInDuration.code(), 10);
        kb.insert(KeyBoardKey::FadeInShape.code(), 2);
        kb.insert(KeyBoardKey::FadeOutDuration.code(), 75);
        kb.insert(KeyBoardKey::FadeOutShape.code(), 76);
        kb.insert(KeyBoardKey::Gain.code(), 95);
        kb.insert(KeyBoardKey::Record.code(), 118);
        kb.insert(KeyBoardKey::Play.code(), 117);
        kb.insert(KeyBoardKey::Stop.code(), 116);
        let r = HardWare { midi_keys_mapping: midi, kb_keys_mapping: kb };
        assert(r.controls() =~= default_controls());
        r
    }
}

/// Binding a key to one controller and then to another leaves the first
/// controller unbound and the second bound to that key.
pub proof fn lemma_rebind_moves_key(m: Map<u8, KeyBoardKey>, key: KeyBoardKey, first: u8, second: u8)
    requires
        first != second,
    ensures
        !bind(bind(m, key, first), key, second).contains_key(first),
        bind(bind(m, key, first), key, second).contains_key(second),
        bind(bind(m, key, first), key, second)[second] == key,
{
}

/// After a binding, each key still has at most one controller.
pub proof fn lemma_bind_keeps_keys_unique(m: Map<u8, KeyBoardKey>, key: KeyBoardKey, control: u8)
    requires
        keys_unique(m),
    ensures
        keys_unique(bind(m, key, control)),
{
}

/// Unbinding the one controller `c` that stands for `key` removes `key` everywhere.
proof fn lemma_unbind(m: Map<u8, KeyBoardKey>, key: KeyBoardKey, c: u8)
    requires
        keys_unique(m),
        m.contains_key(c),
        m[c] == key,
    ensures
        m.remove(c) == without_key(m, key),
{
    assert(m.remove(c) =~= without_key(m, key));
}

/// The key with a given code, if any.
pub open spec fn key_of_code(code: int) -> Option<KeyBoardKey> {
    if code == 0 {
        Some(KeyBoardKey::WaveSelection)
    } else if code == 1 {
        Some(KeyBoardKey::FadeInDuration)
    } else if code == 2 {
        Some(KeyBoardKey::FadeInShape)
    } else if code == 3 {
        Some(KeyBoardKey::FadeOutDuration)
    } else if code == 4 {
        Some(KeyBoardKey::FadeOutShape)
    } else if code == 5 {
        Some(KeyBoardKey::Gain)
    } else if code == 6 {
        Some(KeyBoardKey::Record)
    } else if code == 7 {
        Some(KeyBoardKey::Play)
    } else if code == 8 {
        Some(KeyBoardKey::Stop)
    } else if code == 9 {
        Some(KeyBoardKey::TransposeUp)
    } else if code == 10 {
        Some(KeyBoardKey::TransposeDown)
    } else if code == 11 {
        Some(KeyBoardKey::Parameter)
    } else if code == 12 {
        Some(KeyBoardKey::Modulation)
    } else if code == 13 {
        Some(KeyBoardKey::ModulationSpeed)
    } else if code == 14 {
        Some(KeyBoardKey::ModulationIntensity)
    } else if code == 15 {
        Some(KeyBoardKey::Duration)
    } else if code == 16 {
        Some(KeyBoardKey::Activate)
    } else if code == 17 {
        Some(KeyBoardKey::Tempo)
    } else if 32 <= code < 288 {
        Some(KeyBoardKey::Overtone((code - 32) as u8))
    } else {
        None
    }
}

/// Every key is found again from its code.
pub proof fn lemma_key_of_code(k: KeyBoardKey)
    ensures
        key_of_code(key_code(k) as int) == Some(k),
{
}

/// The key with a given code, if any.
pub fn key_from_code(code: u16) -> (r: Option<KeyBoardKey>)
    ensures
        r == key_of_code(code as int),
{
    match code {
        0 => Some(KeyBoardKey::WaveSelection),
        1 => Some(KeyBoardKey::FadeInDuration),
        2 => Some(KeyBoardKey::FadeInShape),
        3 => Some(KeyBoardKey::FadeOutDuration),
        4 => Some(KeyBoardKey::FadeOutShape),
        5 => Some(KeyBoardKey::Gain),
        6 => Some(KeyBoardKey::Record),
        7 => Some(KeyBoardKey::Play),
        8 => Some(KeyBoardKey::Stop),
        9 => Some(KeyBoardKey::TransposeUp),
        10 => Some(KeyBoardKey::TransposeDown),
        11 => Some(KeyBoardKey::Parameter),
        12 => Some(KeyBoardKey::Modulation),
        13 => Some(KeyBoardKey::ModulationSpeed),
        14 => Some(KeyBoardKey::ModulationIntensity),
        15 => Some(KeyBoardKey::Duration),
        16 => Some(KeyBoardKey::Activate),
        17 => Some(KeyBoardKey::Tempo),
        32..=287 => Some(KeyBoardKey::Overtone((code - 32) as u8)),
        _ => None,
    }
}

/// The stored form of the binding of controller `c`: the controller, then
/// the code of its key, least significant byte first; nothing when unbound.
pub open spec fn binding_bytes(m: Map<u8, KeyBoardKey>, c: u8) -> Seq<u8> {
    if m.contains_key(c) {
        seq![c, (key_code(m[c]) % 256) as u8, (key_code(m[c]) / 256) as u8]
    } else {
        Seq::<u8>::empty()
    }
}

/// The stored form of the bindings of the controllers below `n`.
pub open spec fn bindings_below(m: Map<u8, KeyBoardKey>, n: int) -> Seq<u8>
    decreases n,
{
    if n <= 0 {
        Seq::<u8>::empty()
    } else {
        bindings_below(m, n - 1) + binding_bytes(m, (n - 1) as u8)
    }
}

/// The stored form of a table: its bindings by increasing controller.
pub open spec fn stored(m: Map<u8, KeyBoardKey>) -> Seq<u8> {
    bindings_below(m, 256)
}

/// The key code of the `i`th stored binding.
pub open spec fn code_at(bytes: Seq<u8>, i: int) -> int {
    bytes[3 * i + 1] + 256 * bytes[3 * i + 2]
}

/// Every stored binding names a key.
pub open spec fn loadable(bytes: Seq<u8>) -> bool {
    &&& bytes.len() % 3 == 0
    &&& forall|i: int| 0 <= i < bytes.len() / 3 ==> (#[trigger] key_of_code(code_at(bytes, i))) is Some
}

/// The table made by binding, one after the other, the first `n` stored bindings.
pub open spec fn loaded(bytes: Seq<u8>, n: int) -> Map<u8, KeyBoardKey>
    decreases n,
{
    if n <= 0 {
        Map::<u8, KeyBoardKey>::empty()
    } else {
        bind(loaded(bytes, n - 1), key_of_code(code_at(bytes, n - 1))->Some_0, bytes[3 * (n - 1)])
    }
}

impl HardWare {
    /// The stored form of the table.
    pub fn save(&self) -> (r: Vec<u8>)
        requires
            self.wf(),
        ensures
            r@ == stored(self.controls()),
    {
        let mut bytes: Vec<u8> = Vec::new();
        let mut c: u16 = 0;
        while c < 256
            invariant
                c <= 256,
                bytes@ == bindings_below(self.controls(), c as int),
            decreases 256 - c,
        {
            let control = c as u8;
            match self.get_keyboard_key(control) {
                Some(k) => {
                    let code = k.code();
                    bytes.push(control);
                    bytes.push((code % 256) as u8);
                    bytes.push((code / 256) as u8);
                },
                None => {},
            }
            c = c + 1;
            assert(bytes@ =~= bindings_below(self.controls(), c as int));
        }
        bytes
    }

    /// The table stored in `bytes`; `None` when they do not hold whole
    /// bindings of known keys.
    pub fn load(bytes: &[u8]) -> (r: Option<HardWare>)
        ensures
            match r {
                Some(h) => {
                    &&& loadable(bytes@)
                    &&& h.wf()
                    &&& h.controls() == loaded(bytes@, (bytes@.len() / 3) as int)
                },
                None => !loadable(bytes@),
            },
    {
        if bytes.len() % 3 != 0 {
            return None;
        }
        let mut h = HardWare::new();
        let mut i: usize = 0;
        while i < bytes.len() / 3
            invariant
                bytes@.len() % 3 == 0,
                i <= bytes@.len() / 3,
                h.wf(),
                h.controls() == loaded(bytes@, i as int),
                forall|j: int| 0 <= j < i ==> (#[trigger] key_of_code(code_at(bytes@, j))) is Some,
            decreases bytes@.len() / 3 - i,
        {
            let code = bytes[3 * i + 1] as u16 + 256 * bytes[3 * i + 2] as u16;
            match key_from_code(code) {
                Some(k) => h.update_key(k, bytes[3 * i]),
                None => {
                    assert(code as int == code_at(bytes@, i as int));
                    assert(!(key_of_code(code_at(bytes@, i as int)) is Some));
                    return None;
                },
            }
            i = i + 1;
        }
        Some(h)
    }
}

/// The bindings of the controllers below `n`.
pub open spec fn bound_below(m: Map<u8, KeyBoardKey>, n: int) -> Map<u8, KeyBoardKey> {
    Map::new(|c: u8| m.contains_key(c) && (c as int) < n, |c: u8| m[c])
}

/// Bytes appended after whole bindings leave the loading of those bindings as it was.
proof fn lemma_loaded_prefix(s: Seq<u8>, t: Seq<u8>, k: int)
    requires
        s.len() % 3 == 0,
        0 <= k <= s.len() / 3,
    ensures
        loaded(s + t, k) == loaded(s, k),
    decreases k,
{
    if k > 0 {
        lemma_loaded_prefix(s, t, k - 1);
        assert((s + t)[3 * (k - 1)] == s[3 * (k - 1)]);
        assert(code_at(s + t, k - 1) == code_at(s, k - 1));
    }
}

/// The stored bindings of the controllers below `n` load back into those bindings.
proof fn lemma_load_below(m: Map<u8, KeyBoardKey>, n: int)
    requires
        keys_unique(m),
        0 <= n <= 256,
    ensures
        bindings_below(m, n).len() % 3 == 0,
        loadable(bindings_below(m, n)),
        loaded(bindings_below(m, n), (bindings_below(m, n).len() / 3) as int) == bound_below(m, n),
    decreases n,
{
    if n == 0 {
        assert(bound_below(m, 0) =~= Map::<u8, KeyBoardKey>::empty());
    } else {
        lemma_load_below(m, n - 1);
        let s = bindings_below(m, n - 1);
        let c = (n - 1) as u8;
        let e = binding_bytes(m, c);
        let t = s + e;
        let q = (s.len() / 3) as int;
        assert(bindings_below(m, n) == t);
        lemma_loaded_prefix(s, e, q);
        if m.contains_key(c) {
            let k = m[c];
            let code = key_code(k) as int;
            assert(t.len() == s.len() + 3);
            assert(t[3 * q] == c);
            assert(code_at(t, q) == code) by {
                assert(t[3 * q + 1] == (code % 256) as u8);
                assert(t[3 * q + 2] == (code / 256) as u8);
            }
            lemma_key_of_code(k);
            assert forall|i: int| 0 <= i < t.len() / 3 implies (#[trigger] key_of_code(
                code_at(t, i),
            )) is Some by {
                if i < q {
                    assert(code_at(t, i) == code_at(s, i));
                }
            }
            assert(without_key(bound_below(m, n - 1), k) =~= bound_below(m, n - 1));
            assert(bind(bound_below(m, n - 1), k, c) =~= bound_below(m, n));
        } else {
            assert(e =~= Seq::<u8>::empty());
            assert(t =~= s);
            assert(bound_below(m, n - 1) =~= bound_below(m, n));
        }
    }
}

/// Loading the stored form of a table gives the same bindings back.
pub proof fn lemma_load_saved(m: Map<u8, KeyBoardKey>)
    requires
        keys_unique(m),
    ensures
        loadable(stored(m)),
        loaded(stored(m), (stored(m).len() / 3) as int) == m,
{
    lemma_load_below(m, 256);
    assert(bound_below(m, 256) =~= m);
}

} // verus!
