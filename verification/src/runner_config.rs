//! Per-run configuration: cartridge and ROM paths, mute and synchronized-mode
//! flags, and the host-key to logical-button mapping table.

use vstd::prelude::*;

verus! {

/// One of the nine logical buttons of the handheld.
///
/// The first eight belong to the joystick bit group; `Pause` is the single
/// switch bit.
#[derive(Clone, Copy, PartialEq, Eq, Structural, Debug)]
pub enum Input {
    Up,
    Down,
    Left,
    Right,
    Outside,
    Inside,
    Option1,
    Option2,
    Pause,
}

/// Number of logical buttons a complete mapping must cover.
pub const BUTTON_COUNT: usize = 9;

impl Input {
    /// Index of this button in the canonical ordering used by the mapping
    /// table and by the debouncer's counter table.
    pub open spec fn spec_index_of(self) -> int {
        match self {
            Input::Up => 0,
            Input::Down => 1,
            Input::Left => 2,
            Input::Right => 3,
            Input::Outside => 4,
            Input::Inside => 5,
            Input::Option1 => 6,
            Input::Option2 => 7,
            Input::Pause => 8,
        }
    }

    /// The button at a given canonical index.
    pub open spec fn spec_from_index(i: int) -> Input {
        if i == 0 { Input::Up }
        else if i == 1 { Input::Down }
        else if i == 2 { Input::Left }
        else if i == 3 { Input::Right }
        else if i == 4 { Input::Outside }
        else if i == 5 { Input::Inside }
        else if i == 6 { Input::Option1 }
        else if i == 7 { Input::Option2 }
        else { Input::Pause }
    }

    /// Executable form of `spec_index_of`.
    pub fn index_of(self) -> (i: usize)
        ensures
            i == self.spec_index_of(),
            i < BUTTON_COUNT,
    {
        match self {
            Input::Up => 0,
            Input::Down => 1,
            Input::Left => 2,
            Input::Right => 3,
            Input::Outside => 4,
            Input::Inside => 5,
            Input::Option1 => 6,
            Input::Option2 => 7,
            Input::Pause => 8,
        }
    }

    /// Whether this button lives in the switches bit group rather than the
    /// joystick bit group.
    pub open spec fn spec_is_switch(self) -> bool {
        self is Pause
    }

    /// Executable form of `spec_is_switch`.
    pub fn is_switch(self) -> (r: bool)
        ensures
            r == self.spec_is_switch(),
    {
        match self {
            Input::Pause => true,
            _ => false,
        }
    }
}

/// Reasons a button-mapping table can be rejected at startup.
#[derive(Clone, Copy, PartialEq, Eq, Structural, Debug)]
pub enum ConfigError {
    /// The mapping did not name exactly one host key per logical button.
    WrongArity,
    /// A host key identifier was the reserved "unknown key" value.
    UnknownKey,
}

/// Immutable-per-run settings, cloned by value into each thread.
///
/// Host keys are plain identifiers; the reserved value `0` means "unknown
/// key" and never appears in a well-formed mapping.
#[derive(Clone)]
pub struct RunnerConfig {
    rom: Option<String>,
    cartridge: Option<String>,
    button_mapping: Vec<(u64, Input)>,
    mute: bool,
    comlynx: bool,
}

/// The pair sequence `s` associates `key` with button `b`.
pub open spec fn seq_maps_to(s: Seq<(u64, Input)>, key: u64, b: Input) -> bool {
    exists|i: int| 0 <= i < s.len() && s[i] == (key, b)
}

/// No host key occurs twice in the pair sequence `s`.
pub open spec fn seq_unique_keys(s: Seq<(u64, Input)>) -> bool {
    forall|i: int, j: int|
        0 <= i < s.len() && 0 <= j < s.len() && i != j ==> (#[trigger] s[i]).0 != (
        #[trigger] s[j]).0
}

impl RunnerConfig {
    /// The mapping table as a sequence of (host key, button) pairs.
    pub closed spec fn spec_button_mapping(self) -> Seq<(u64, Input)> {
        self.button_mapping@
    }

    /// The mapping table associates `key` with button `b`.
    pub closed spec fn spec_maps_to(self, key: u64, b: Input) -> bool {
        seq_maps_to(self.button_mapping@, key, b)
    }

    /// No host key occurs twice in the mapping table.
    pub closed spec fn mapping_unique(self) -> bool {
        seq_unique_keys(self.button_mapping@)
    }

    pub closed spec fn spec_rom(self) -> Option<String> {
        self.rom
    }

    pub closed spec fn spec_cartridge(self) -> Option<String> {
        self.cartridge
    }

    pub closed spec fn spec_mute(self) -> bool {
        self.mute
    }

    pub closed spec fn spec_comlynx(self) -> bool {
        self.comlynx
    }

    /// A fresh configuration: no paths, no mapping, audio on, free-running.
    pub fn new() -> (c: RunnerConfig)
        ensures
            c.spec_rom() is None,
            c.spec_cartridge() is None,
            !c.spec_mute(),
            !c.spec_comlynx(),
            c.spec_button_mapping().len() == 0,
            c.mapping_unique(),
    {
        RunnerConfig {
            rom: None,
            cartridge: None,
            mute: false,
            comlynx: false,
            button_mapping: Vec::new(),
        }
    }

    pub fn rom(&self) -> (r: &Option<String>)
        ensures
            *r == self.spec_rom(),
    {
        &self.rom
    }

    pub fn set_rom(&mut self, rom: String)
        ensures
            final(self).spec_rom() == Some(rom),
            final(self).spec_cartridge() == old(self).spec_cartridge(),
            final(self).spec_mute() == old(self).spec_mute(),
            final(self).spec_comlynx() == old(self).spec_comlynx(),
            final(self).spec_button_mapping() == old(self).spec_button_mapping(),
    {
        self.rom = Some(rom);
    }

    pub fn cartridge(&self) -> (r: &Option<String>)
        ensures
            *r == self.spec_cartridge(),
    {
        &self.cartridge
    }

    pub fn set_cartridge(&mut self, cartridge: String)
        ensures
            final(self).spec_cartridge() == Some(cartridge),
            final(self).spec_rom() == old(self).spec_rom(),
            final(self).spec_mute() == old(self).spec_mute(),
            final(self).spec_comlynx() == old(self).spec_comlynx(),
            final(self).spec_button_mapping() == old(self).spec_button_mapping(),
    {
        self.cartridge = Some(cartridge);
    }

    pub fn button_mapping(&self) -> (r: &Vec<(u64, Input)>)
        ensures
            r@ == self.spec_button_mapping(),
    {
        &self.button_mapping
    }

    /// Associate `key` with button `b`, replacing any earlier association of
    /// the same key, as the mapping table must stay one entry per host key.
    pub fn set_button_mapping(&mut self, key: u64, b: Input)
        requires
            old(self).mapping_unique(),
        ensures
            final(self).mapping_unique(),
            final(self).spec_maps_to(key, b),
            forall|k2: u64, b2: Input|
                k2 != key ==> (final(self).spec_maps_to(k2, b2) <==> old(self).spec_maps_to(
                    k2,
                    b2,
                )),
            forall|b2: Input| final(self).spec_maps_to(key, b2) ==> b2 == b,
            final(self).spec_rom() == old(self).spec_rom(),
            final(self).spec_cartridge() == old(self).spec_cartridge(),
            final(self).spec_mute() == old(self).spec_mute(),
            final(self).spec_comlynx() == old(self).spec_comlynx(),
    {
        let ghost orig = self.button_mapping@;
        let n = self.button_mapping.len();
        let mut i: usize = 0;
        while i < n
            invariant
                *self == *old(self),
                orig == self.button_mapping@,
                n == orig.len(),
                seq_unique_keys(orig),
                0 <= i <= n,
                forall|j: int| 0 <= j < i ==> (#[trigger] orig[j]).0 != key,
            decreases n - i,
        {
            if self.button_mapping[i].0 == key {
                self.button_mapping.set(i, (key, b));
                proof {
                    let m = self.button_mapping@;
                    assert(m == orig.update(i as int, (key, b)));
                    assert(m[i as int] == (key, b));
                    assert(orig[i as int].0 == key);
                    assert forall|p: int, q: int|
                        0 <= p < m.len() && 0 <= q < m.len() && p != q implies (
                    #[trigger] m[p]).0 != (#[trigger] m[q]).0 by {
                        if p == i {
                            assert(orig[q].0 != orig[i as int].0);
                        } else if q == i {
                            assert(orig[p].0 != orig[i as int].0);
                        } else {
                            assert(orig[p].0 != orig[q].0);
                        }
                    }
                    assert forall|b2: Input| seq_maps_to(m, key, b2) implies b2 == b by {
                        let jj = choose|jj: int| 0 <= jj < m.len() && m[jj] == (key, b2);
                        if jj != i {
                            assert(orig[jj].0 != orig[i as int].0);
                            assert(orig[jj] == m[jj]);
                        }
                    }
                    assert forall|k2: u64, b2: Input|
                        k2 != key implies (seq_maps_to(m, k2, b2) <==> seq_maps_to(
                        orig,
                        k2,
                        b2,
                    )) by {
                        if seq_maps_to(m, k2, b2) {
                            let jj = choose|jj: int| 0 <= jj < m.len() && m[jj] == (k2, b2);
                            assert(orig[jj] == (k2, b2));
                        }
                        if seq_maps_to(orig, k2, b2) {
                            let jj = choose|jj: int| 0 <= jj < orig.len() && orig[jj] == (k2, b2);
                            assert(m[jj] == (k2, b2));
                        }
                    }
                }
                return ;
            }
            i += 1;
        }
        self.button_mapping.push((key, b));
        proof {
            let m = self.button_mapping@;
            assert(m == orig.push((key, b)));
            assert(m[orig.len() as int] == (key, b));
            assert forall|p: int, q: int|
                0 <= p < m.len() && 0 <= q < m.len() && p != q implies (#[trigger] m[p]).0 != (
            #[trigger] m[q]).0 by {
                if p == orig.len() {
                    assert(orig[q].0 != key);
                } else if q == orig.len() {
                    assert(orig[p].0 != key);
                } else {
                    assert(orig[p].0 != orig[q].0);
                }
            }
            assert forall|b2: Input| seq_maps_to(m, key, b2) implies b2 == b by {
                let jj = choose|jj: int| 0 <= jj < m.len() && m[jj] == (key, b2);
                if jj != orig.len() {
                    assert(orig[jj].0 != key);
                }
            }
            assert forall|k2: u64, b2: Input|
                k2 != key implies (seq_maps_to(m, k2, b2) <==> seq_maps_to(orig, k2, b2)) by {
                if seq_maps_to(m, k2, b2) {
                    let jj = choose|jj: int| 0 <= jj < m.len() && m[jj] == (k2, b2);
                    assert(jj != orig.len());
                    assert(orig[jj] == (k2, b2));
                }
                if seq_maps_to(orig, k2, b2) {
                    let jj = choose|jj: int| 0 <= jj < orig.len() && orig[jj] == (k2, b2);
                    assert(m[jj] == (k2, b2));
                }
            }
        }
    }

    /// Look up the button mapped to a host key.
    pub fn button_for(&self, key: u64) -> (r: Option<Input>)
        requires
            self.mapping_unique(),
        ensures
            match r {
                Some(b) => self.spec_maps_to(key, b),
                None => forall|b: Input| !self.spec_maps_to(key, b),
            },
    {
        let n = self.button_mapping.len();
        let mut i: usize = 0;
        while i < n
            invariant
                n == self.button_mapping@.len(),
                0 <= i <= n,
                forall|j: int| 0 <= j < i ==> (#[trigger] self.button_mapping@[j]).0 != key,
            decreases n - i,
        {
            if self.button_mapping[i].0 == key {
                proof {
                    let m = self.button_mapping@;
                    assert(m[i as int] == (key, m[i as int].1));
                }
                return Some(self.button_mapping[i].1);
            }
            i += 1;
        }
        proof {
            let m = self.button_mapping@;
            assert forall|b: Input| !seq_maps_to(m, key, b) by {
                if seq_maps_to(m, key, b) {
                    let jj = choose|jj: int| 0 <= jj < m.len() && m[jj] == (key, b);
                    assert(m[jj].0 != key);
                }
            }
        }
        None
    }

    pub fn mute(&self) -> (r: bool)
        ensures
            r == self.spec_mute(),
    {
        self.mute
    }

    pub fn set_mute(&mut self, mute: bool)
        ensures
            final(self).spec_mute() == mute,
            final(self).spec_rom() == old(self).spec_rom(),
            final(self).spec_cartridge() == old(self).spec_cartridge(),
            final(self).spec_comlynx() == old(self).spec_comlynx(),
            final(self).spec_button_mapping() == old(self).spec_button_mapping(),
    {
        self.mute = mute;
    }

    pub fn comlynx(&self) -> (r: bool)
        ensures
            r == self.spec_comlynx(),
    {
        self.comlynx
    }

    pub fn set_comlynx(&mut self, comlynx: bool)
        ensures
            final(self).spec_comlynx() == comlynx,
            final(self).spec_rom() == old(self).spec_rom(),
            final(self).spec_cartridge() == old(self).spec_cartridge(),
            final(self).spec_mute() == old(self).spec_mute(),
            final(self).spec_button_mapping() == old(self).spec_button_mapping(),
    {
        self.comlynx = comlynx;
    }

    /// Install a complete mapping: one host key per logical button, in the
    /// canonical button order. Rejects a table of the wrong arity and the
    /// reserved unknown-key value; a duplicated key keeps its last binding.
    pub fn set_button_assignments(&mut self, keys: &Vec<u64>) -> (r: Result<(), ConfigError>)
        requires
            old(self).mapping_unique(),
        ensures
            final(self).mapping_unique(),
            r == Ok::<(), ConfigError>(()) <==> (keys@.len() == BUTTON_COUNT && forall|i: int|
                0 <= i < keys@.len() ==> keys@[i] != 0),
            r == Err::<(), ConfigError>(ConfigError::WrongArity) <==> keys@.len() != BUTTON_COUNT,
            r == Err::<(), ConfigError>(ConfigError::UnknownKey) <==> (keys@.len() == BUTTON_COUNT
                && exists|i: int| 0 <= i < keys@.len() && keys@[i] == 0),
            (r == Ok::<(), ConfigError>(()) && (forall|p: int, q: int|
                0 <= p < keys@.len() && 0 <= q < keys@.len() && p != q ==> keys@[p] != keys@[q]))
                ==> forall|i: int|
                0 <= i < BUTTON_COUNT ==> final(self).spec_maps_to(
                    keys@[i],
                    Input::spec_from_index(i),
                ),
            final(self).spec_rom() == old(self).spec_rom(),
            final(self).spec_cartridge() == old(self).spec_cartridge(),
            final(self).spec_mute() == old(self).spec_mute(),
            final(self).spec_comlynx() == old(self).spec_comlynx(),
    {
        if keys.len() != BUTTON_COUNT {
            return Err(ConfigError::WrongArity);
        }
        let mut i: usize = 0;
        while i < BUTTON_COUNT
            invariant
                *self == *old(self),
                old(self).mapping_unique(),
                keys@.len() == BUTTON_COUNT,
                0 <= i <= BUTTON_COUNT,
                forall|j: int| 0 <= j < i ==> keys@[j] != 0,
            decreases BUTTON_COUNT - i,
        {
            if keys[i] == 0 {
                return Err(ConfigError::UnknownKey);
            }
            i += 1;
        }
        let ghost distinct = forall|p: int, q: int|
            0 <= p < keys@.len() && 0 <= q < keys@.len() && p != q ==> keys@[p] != keys@[q];
        let mut i: usize = 0;
        while i < BUTTON_COUNT
            invariant
                self.mapping_unique(),
                keys@.len() == BUTTON_COUNT,
                0 <= i <= BUTTON_COUNT,
                distinct == (forall|p: int, q: int|
                    0 <= p < keys@.len() && 0 <= q < keys@.len() && p != q ==> keys@[p]
                        != keys@[q]),
                distinct ==> forall|j: int|
                    0 <= j < i ==> self.spec_maps_to(keys@[j], Input::spec_from_index(j)),
                self.spec_rom() == old(self).spec_rom(),
                self.spec_cartridge() == old(self).spec_cartridge(),
                self.spec_mute() == old(self).spec_mute(),
                self.spec_comlynx() == old(self).spec_comlynx(),
            decreases BUTTON_COUNT - i,
        {
            let ghost before = *self;
            let b = button_at(i);
            self.set_button_mapping(keys[i], b);
            proof {
                if distinct {
                    assert forall|j: int|
                        0 <= j < i + 1 implies self.spec_maps_to(
                        keys@[j],
                        Input::spec_from_index(j),
                    ) by {
                        if j < i {
                            assert(keys@[j] != keys@[i as int]);
                            assert(before.spec_maps_to(keys@[j], Input::spec_from_index(j)));
                        }
                    }
                }
            }
            i += 1;
        }
        Ok(())
    }
}

/// Two bindings of the same host key in a duplicate-free mapping name the
/// same button.
pub proof fn lemma_unique_lookup(c: RunnerConfig, key: u64, b1: Input, b2: Input)
    requires
        c.mapping_unique(),
        c.spec_maps_to(key, b1),
        c.spec_maps_to(key, b2),
    ensures
        b1 == b2,
{
    let m = c.spec_button_mapping();
    let i1 = choose|i: int| 0 <= i < m.len() && m[i] == (key, b1);
    let i2 = choose|i: int| 0 <= i < m.len() && m[i] == (key, b2);
    if i1 != i2 {
        assert(m[i1].0 != m[i2].0);
    }
}

/// The button at canonical position `i` of a complete mapping table.
pub fn button_at(i: usize) -> (b: Input)
    requires
        i < BUTTON_COUNT,
    ensures
        b == Input::spec_from_index(i as int),
{
    if i == 0 { Input::Up }
    else if i == 1 { Input::Down }
    else if i == 2 { Input::Left }
    else if i == 3 { Input::Right }
    else if i == 4 { Input::Outside }
    else if i == 5 { Input::Inside }
    else if i == 6 { Input::Option1 }
    else if i == 7 { Input::Option2 }
    else { Input::Pause }
}

} // verus!
