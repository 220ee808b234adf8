//! Input debouncing: turns a stream of raw key-press events into a stable
//! logical button state, synthesizing key releases with per-button decay
//! counters, and transmitting the aggregate bitmask only when it changes.

use vstd::prelude::*;

use crate::runner_config::{BUTTON_COUNT, Input, RunnerConfig};

verus! {

/// Initial value of a button's decay counter: the number of host polling
/// ticks a press stays live without being refreshed.
pub const BUTTON_DECAY: u8 = 15;

/// One decay step: every positive counter is decremented by one, saturating
/// at zero.
pub open spec fn decay_model(c: Seq<u8>) -> Seq<u8> {
    Seq::new(c.len(), |i: int| if c[i] > 0 { (c[i] - 1) as u8 } else { 0u8 })
}

/// `n` decay steps in sequence.
pub open spec fn decay_n(c: Seq<u8>, n: nat) -> Seq<u8>
    decreases n,
{
    if n == 0 {
        c
    } else {
        decay_model(decay_n(c, (n - 1) as nat))
    }
}

/// Button `b` counts as pressed exactly while its decay counter is positive.
pub open spec fn spec_active(c: Seq<u8>, b: Input) -> bool {
    c[b.spec_index_of()] > 0
}

/// A fresh press of `b`: its counter restarts at the full decay value.
pub open spec fn press_model(c: Seq<u8>, b: Input) -> Seq<u8> {
    c.update(b.spec_index_of(), BUTTON_DECAY)
}

/// The joystick bitmask derived from the counter table: one bit per
/// directional/action button, set exactly while that button is pressed.
pub open spec fn joystick_of(c: Seq<u8>) -> u8 {
    ((if c[0] > 0 { 1int } else { 0 }) + (if c[1] > 0 { 2int } else { 0 }) + (if c[2] > 0 {
        4int
    } else {
        0
    }) + (if c[3] > 0 { 8int } else { 0 }) + (if c[4] > 0 { 16int } else { 0 }) + (if c[5] > 0 {
        32int
    } else {
        0
    }) + (if c[6] > 0 { 64int } else { 0 }) + (if c[7] > 0 { 128int } else { 0 })) as u8
}

/// The switches bitmask: a single bit for the pause switch.
pub open spec fn switches_of(c: Seq<u8>) -> u8 {
    if c[8] > 0 {
        1u8
    } else {
        0u8
    }
}

/// Some key of `keys` is mapped by `config` to the button with canonical
/// index `i`.
pub open spec fn spec_pressed_index(keys: Seq<u64>, config: RunnerConfig, i: int) -> bool {
    exists|j: int, b: Input|
        #![trigger config.spec_maps_to(keys[j], b)]
        0 <= j < keys.len() && config.spec_maps_to(keys[j], b) && b.spec_index_of() == i
}

/// Host-side input debouncer.
///
/// Holds one decay counter per logical button and the last transmitted
/// bitmask pair; the live bitmasks are derived from the counters.
pub struct Debouncer {
    counters: Vec<u8>,
    last_joystick: u8,
    last_switches: u8,
}

impl Debouncer {
    /// The per-button decay counter table, in canonical button order.
    pub closed spec fn spec_counters(self) -> Seq<u8> {
        self.counters@
    }

    /// Joystick half of the last transmitted input state.
    pub closed spec fn spec_last_joystick(self) -> u8 {
        self.last_joystick
    }

    /// Switches half of the last transmitted input state.
    pub closed spec fn spec_last_switches(self) -> u8 {
        self.last_switches
    }

    /// One counter per logical button.
    pub closed spec fn wf(self) -> bool {
        self.counters@.len() == BUTTON_COUNT
    }

    /// A fresh debouncer: nothing pressed, nothing transmitted yet.
    pub fn new() -> (d: Debouncer)
        ensures
            d.wf(),
            d.spec_counters().len() == BUTTON_COUNT,
            forall|j: int| 0 <= j < BUTTON_COUNT ==> d.spec_counters()[j] == 0u8,
            d.spec_last_joystick() == 0,
            d.spec_last_switches() == 0,
    {
        let mut counters: Vec<u8> = Vec::new();
        let mut i: usize = 0;
        while i < BUTTON_COUNT
            invariant
                0 <= i <= BUTTON_COUNT,
                counters@.len() == i,
                forall|j: int| 0 <= j < i ==> counters@[j] == 0u8,
            decreases BUTTON_COUNT - i,
        {
            counters.push(0);
            i += 1;
        }
        Debouncer { counters, last_joystick: 0, last_switches: 0 }
    }

    /// Register a raw press of button `b`: restart its decay counter.
    pub fn press(&mut self, b: Input)
        requires
            old(self).wf(),
        ensures
            final(self).wf(),
            final(self).spec_counters() == press_model(old(self).spec_counters(), b),
            final(self).spec_last_joystick() == old(self).spec_last_joystick(),
            final(self).spec_last_switches() == old(self).spec_last_switches(),
    {
        let i = b.index_of();
        self.counters.set(i, BUTTON_DECAY);
    }

    /// Register a raw press of the host key `key`: the mapped button, if any,
    /// gets a fresh decay counter; an unmapped key changes nothing.
    pub fn apply_key(&mut self, key: u64, config: &RunnerConfig)
        requires
            old(self).wf(),
            config.mapping_unique(),
        ensures
            final(self).wf(),
            forall|i: int|
                0 <= i < BUTTON_COUNT ==> final(self).spec_counters()[i] == (if (exists|b: Input|
                    config.spec_maps_to(key, b) && b.spec_index_of() == i) {
                    BUTTON_DECAY
                } else {
                    old(self).spec_counters()[i]
                }),
            final(self).spec_last_joystick() == old(self).spec_last_joystick(),
            final(self).spec_last_switches() == old(self).spec_last_switches(),
    {
        match config.button_for(key) {
            Some(b) => {
                self.press(b);
                proof {
                    assert forall|i: int|
                        0 <= i < BUTTON_COUNT implies self.spec_counters()[i] == (if (exists|
                        b2: Input,
                    |
                        config.spec_maps_to(key, b2) && b2.spec_index_of() == i) {
                        BUTTON_DECAY
                    } else {
                        old(self).spec_counters()[i]
                    }) by {
                        if exists|b2: Input|
                            config.spec_maps_to(key, b2) && b2.spec_index_of() == i {
                            let b2 = choose|b2: Input|
                                config.spec_maps_to(key, b2) && b2.spec_index_of() == i;
                            crate::runner_config::lemma_unique_lookup(*config, key, b2, b);
                        }
                    }
                }
            },
            None => {},
        }
    }

    /// One decay step over the whole counter table.
    pub fn decay(&mut self)
        requires
            old(self).wf(),
        ensures
            final(self).wf(),
            final(self).spec_counters() == decay_model(old(self).spec_counters()),
            final(self).spec_last_joystick() == old(self).spec_last_joystick(),
            final(self).spec_last_switches() == old(self).spec_last_switches(),
    {
        let ghost orig = self.counters@;
        let mut i: usize = 0;
        while i < BUTTON_COUNT
            invariant
                self.wf(),
                0 <= i <= BUTTON_COUNT,
                orig.len() == BUTTON_COUNT,
                self.last_joystick == old(self).spec_last_joystick(),
                self.last_switches == old(self).spec_last_switches(),
                forall|j: int| 0 <= j < i ==> self.counters@[j] == decay_model(orig)[j],
                forall|j: int| i <= j < BUTTON_COUNT ==> self.counters@[j] == orig[j],
            decreases BUTTON_COUNT - i,
        {
            let v = self.counters[i];
            self.counters.set(i, if v > 0 { v - 1 } else { 0 });
            i += 1;
        }
        proof {
            assert(self.counters@ =~= decay_model(orig));
        }
    }

    /// The live bitmask pair derived from the counter table.
    pub fn masks(&self) -> (r: (u8, u8))
        requires
            self.wf(),
        ensures
            r.0 == joystick_of(self.spec_counters()),
            r.1 == switches_of(self.spec_counters()),
    {
        let mut joy: u8 = 0;
        if self.counters[0] > 0 {
            joy = joy + 1;
        }
        if self.counters[1] > 0 {
            joy = joy + 2;
        }
        if self.counters[2] > 0 {
            joy = joy + 4;
        }
        if self.counters[3] > 0 {
            joy = joy + 8;
        }
        if self.counters[4] > 0 {
            joy = joy + 16;
        }
        if self.counters[5] > 0 {
            joy = joy + 32;
        }
        if self.counters[6] > 0 {
            joy = joy + 64;
        }
        if self.counters[7] > 0 {
            joy = joy + 128;
        }
        let sw: u8 = if self.counters[8] > 0 {
            1
        } else {
            0
        };
        (joy, sw)
    }

    /// Transmit the live input state if and only if it differs from the last
    /// transmitted one; record what was transmitted.
    pub fn take_transmission(&mut self) -> (r: Option<(u8, u8)>)
        requires
            old(self).wf(),
        ensures
            final(self).wf(),
            final(self).spec_counters() == old(self).spec_counters(),
            ({
                let joy = joystick_of(old(self).spec_counters());
                let sw = switches_of(old(self).spec_counters());
                &&& (r is Some <==> (joy != old(self).spec_last_joystick() || sw != old(
                    self,
                ).spec_last_switches()))
                &&& (r is Some ==> r == Some::<(u8, u8)>((joy, sw)))
                &&& final(self).spec_last_joystick() == joy
                &&& final(self).spec_last_switches() == sw
            }),
    {
        let (joy, sw) = self.masks();
        if joy != self.last_joystick || sw != self.last_switches {
            self.last_joystick = joy;
            self.last_switches = sw;
            Some((joy, sw))
        } else {
            None
        }
    }

    /// One host polling tick: decay every counter, register this tick's raw
    /// key presses, then transmit the aggregate state exactly when it
    /// changed.
    pub fn poll_tick(&mut self, keys: &Vec<u64>, config: &RunnerConfig) -> (r: Option<(u8, u8)>)
        requires
            old(self).wf(),
            config.mapping_unique(),
        ensures
            final(self).wf(),
            forall|i: int|
                0 <= i < BUTTON_COUNT ==> final(self).spec_counters()[i] == (if spec_pressed_index(
                    keys@,
                    *config,
                    i,
                ) {
                    BUTTON_DECAY
                } else {
                    decay_model(old(self).spec_counters())[i]
                }),
            ({
                let joy = joystick_of(final(self).spec_counters());
                let sw = switches_of(final(self).spec_counters());
                &&& (r is Some <==> (joy != old(self).spec_last_joystick() || sw != old(
                    self,
                ).spec_last_switches()))
                &&& (r is Some ==> r == Some::<(u8, u8)>((joy, sw)))
                &&& final(self).spec_last_joystick() == joy
                &&& final(self).spec_last_switches() == sw
            }),
    {
        self.decay();
        let ghost d = self.counters@;
        let n = keys.len();
        let mut j: usize = 0;
        while j < n
            invariant
                self.wf(),
                config.mapping_unique(),
                n == keys@.len(),
                0 <= j <= n,
                d.len() == BUTTON_COUNT,
                self.last_joystick == old(self).spec_last_joystick(),
                self.last_switches == old(self).spec_last_switches(),
                forall|i: int|
                    0 <= i < BUTTON_COUNT ==> self.counters@[i] == (if spec_pressed_index(
                        keys@.take(j as int),
                        *config,
                        i,
                    ) {
                        BUTTON_DECAY
                    } else {
                        d[i]
                    }),
            decreases n - j,
        {
            let ghost before = self.counters@;
            self.apply_key(keys[j], config);
            proof {
                assert forall|i: int|
                    0 <= i < BUTTON_COUNT implies self.counters@[i] == (if spec_pressed_index(
                    keys@.take(j + 1),
                    *config,
                    i,
                ) {
                    BUTTON_DECAY
                } else {
                    d[i]
                }) by {
                    assert(before[i] == (if spec_pressed_index(keys@.take(j as int), *config, i) {
                        BUTTON_DECAY
                    } else {
                        d[i]
                    }));
                    assert(self.spec_counters()[i] == (if (exists|b2: Input|
                        config.spec_maps_to(keys@[j as int], b2) && b2.spec_index_of() == i) {
                        BUTTON_DECAY
                    } else {
                        before[i]
                    }));
                    if spec_pressed_index(keys@.take(j + 1), *config, i) {
                        let (jj, b) = choose|jj: int, b: Input|
                            #![trigger config.spec_maps_to(keys@.take(j + 1)[jj], b)]
                            0 <= jj < keys@.take(j + 1).len() && config.spec_maps_to(
                                keys@.take(j + 1)[jj],
                                b,
                            ) && b.spec_index_of() == i;
                        if jj < j {
                            assert(keys@.take(j as int)[jj] == keys@[jj]);
                            assert(spec_pressed_index(keys@.take(j as int), *config, i));
                        } else {
                            assert(keys@.take(j + 1)[jj] == keys@[j as int]);
                            assert(exists|b2: Input|
                                config.spec_maps_to(keys@[j as int], b2) && b2.spec_index_of()
                                    == i);
                        }
                    } else {
                        assert(!spec_pressed_index(keys@.take(j as int), *config, i)) by {
                            if spec_pressed_index(keys@.take(j as int), *config, i) {
                                let (jj, b) = choose|jj: int, b: Input|
                                    #![trigger config.spec_maps_to(keys@.take(j as int)[jj], b)]
                                    0 <= jj < keys@.take(j as int).len() && config.spec_maps_to(
                                        keys@.take(j as int)[jj],
                                        b,
                                    ) && b.spec_index_of() == i;
                                assert(keys@.take(j + 1)[jj] == keys@[jj]);
                            }
                        }
                        assert(!(exists|b2: Input|
                            config.spec_maps_to(keys@[j as int], b2) && b2.spec_index_of() == i))
                            by {
                            if exists|b2: Input|
                                config.spec_maps_to(keys@[j as int], b2) && b2.spec_index_of()
                                    == i {
                                let b2 = choose|b2: Input|
                                    config.spec_maps_to(keys@[j as int], b2) && b2.spec_index_of()
                                        == i;
                                assert(keys@.take(j + 1)[j as int] == keys@[j as int]);
                            }
                        }
                    }
                }
            }
            j += 1;
        }
        proof {
            assert(keys@.take(n as int) =~= keys@);
        }
        self.take_transmission()
    }
}

/// The single bit each button occupies in its group's bitmask.
pub open spec fn button_mask(b: Input) -> u8 {
    match b {
        Input::Up => 1u8,
        Input::Down => 2u8,
        Input::Left => 4u8,
        Input::Right => 8u8,
        Input::Outside => 16u8,
        Input::Inside => 32u8,
        Input::Option1 => 64u8,
        Input::Option2 => 128u8,
        Input::Pause => 1u8,
    }
}

/// The derived joystick bitmask carries exactly the pressed buttons: a
/// joystick button's bit is set if and only if that button is pressed.
pub proof fn lemma_joystick_bit(c: Seq<u8>, b: Input)
    requires
        c.len() == BUTTON_COUNT,
        !b.spec_is_switch(),
    ensures
        (joystick_of(c) & button_mask(b)) != 0 <==> spec_active(c, b),
{
    let a0: u8 = if c[0] > 0 { 1 } else { 0 };
    let a1: u8 = if c[1] > 0 { 1 } else { 0 };
    let a2: u8 = if c[2] > 0 { 1 } else { 0 };
    let a3: u8 = if c[3] > 0 { 1 } else { 0 };
    let a4: u8 = if c[4] > 0 { 1 } else { 0 };
    let a5: u8 = if c[5] > 0 { 1 } else { 0 };
    let a6: u8 = if c[6] > 0 { 1 } else { 0 };
    let a7: u8 = if c[7] > 0 { 1 } else { 0 };
    let v = joystick_of(c);
    assert(v == a0 + a1 * 2 + a2 * 4 + a3 * 8 + a4 * 16 + a5 * 32 + a6 * 64 + a7 * 128);
    assert((a0 + a1 * 2 + a2 * 4 + a3 * 8 + a4 * 16 + a5 * 32 + a6 * 64 + a7 * 128) as u8 & 1
        == a0 && (a0 + a1 * 2 + a2 * 4 + a3 * 8 + a4 * 16 + a5 * 32 + a6 * 64 + a7 * 128) as u8
        & 2 == a1 * 2 && (a0 + a1 * 2 + a2 * 4 + a3 * 8 + a4 * 16 + a5 * 32 + a6 * 64 + a7 * 128)
        as u8 & 4 == a2 * 4 && (a0 + a1 * 2 + a2 * 4 + a3 * 8 + a4 * 16 + a5 * 32 + a6 * 64 + a7
        * 128) as u8 & 8 == a3 * 8 && (a0 + a1 * 2 + a2 * 4 + a3 * 8 + a4 * 16 + a5 * 32 + a6
        * 64 + a7 * 128) as u8 & 16 == a4 * 16 && (a0 + a1 * 2 + a2 * 4 + a3 * 8 + a4 * 16 + a5
        * 32 + a6 * 64 + a7 * 128) as u8 & 32 == a5 * 32 && (a0 + a1 * 2 + a2 * 4 + a3 * 8 + a4
        * 16 + a5 * 32 + a6 * 64 + a7 * 128) as u8 & 64 == a6 * 64 && (a0 + a1 * 2 + a2 * 4 + a3
        * 8 + a4 * 16 + a5 * 32 + a6 * 64 + a7 * 128) as u8 & 128 == a7 * 128) by (bit_vector)
        requires
            a0 <= 1 && a1 <= 1 && a2 <= 1 && a3 <= 1 && a4 <= 1 && a5 <= 1 && a6 <= 1 && a7 <= 1,
    ;
}

/// The switches bitmask carries exactly the pause switch.
pub proof fn lemma_switches_bit(c: Seq<u8>)
    requires
        c.len() == BUTTON_COUNT,
    ensures
        (switches_of(c) & button_mask(Input::Pause)) != 0 <==> spec_active(c, Input::Pause),
{
    assert(1u8 & 1u8 == 1u8) by (bit_vector);
    assert(0u8 & 1u8 == 0u8) by (bit_vector);
}

/// Decay acts pointwise: after `n` idle polling ticks a counter holds its
/// original value minus `n`, saturating at zero.
pub proof fn lemma_decay_n_value(c: Seq<u8>, n: nat, i: int)
    requires
        0 <= i < c.len(),
    ensures
        decay_n(c, n).len() == c.len(),
        decay_n(c, n)[i] == (if c[i] > n {
            (c[i] - n) as u8
        } else {
            0u8
        }),
    decreases n,
{
    if n > 0 {
        lemma_decay_n_value(c, (n - 1) as nat, i);
    }
}

/// Debounce release discipline: a button left without fresh presses stays
/// pressed for exactly as many polling ticks as its counter holds, is then
/// released, and never comes back on its own — pressed at stage `n` if and
/// only if `n` is still below the counter's starting value.
pub proof fn lemma_debounce_release_once(c: Seq<u8>, b: Input, n: nat)
    requires
        c.len() == BUTTON_COUNT,
    ensures
        spec_active(decay_n(c, n), b) <==> n < c[b.spec_index_of()],
{
    lemma_decay_n_value(c, n, b.spec_index_of());
}

/// With a single button held and then left alone, the derived bitmask pair
/// keeps exactly that button's bit through every polling tick inside the
/// decay window and is all zero from the moment the window ends: over an
/// idle run the mask changes exactly once, so the release is transmitted
/// exactly once and the state never flaps.
pub proof fn lemma_single_button_masks(c: Seq<u8>, b: Input, n: nat)
    requires
        c.len() == BUTTON_COUNT,
        forall|i: int| 0 <= i < BUTTON_COUNT && i != b.spec_index_of() ==> c[i] == 0,
    ensures
        b.spec_is_switch() ==> joystick_of(decay_n(c, n)) == 0 && switches_of(decay_n(c, n)) == (
        if n < c[b.spec_index_of()] {
            1u8
        } else {
            0u8
        }),
        !b.spec_is_switch() ==> switches_of(decay_n(c, n)) == 0 && joystick_of(decay_n(c, n)) == (
        if n < c[b.spec_index_of()] {
            button_mask(b)
        } else {
            0u8
        }),
{
    let d = decay_n(c, n);
    assert forall|i: int| 0 <= i < BUTTON_COUNT implies d[i] == (if c[i] > n {
        (c[i] - n) as u8
    } else {
        0u8
    }) by {
        lemma_decay_n_value(c, n, i);
    }
    assert(d[0] == (if c[0] > n { (c[0] - n) as u8 } else { 0u8 }));
    assert(d[1] == (if c[1] > n { (c[1] - n) as u8 } else { 0u8 }));
    assert(d[2] == (if c[2] > n { (c[2] - n) as u8 } else { 0u8 }));
    assert(d[3] == (if c[3] > n { (c[3] - n) as u8 } else { 0u8 }));
    assert(d[4] == (if c[4] > n { (c[4] - n) as u8 } else { 0u8 }));
    assert(d[5] == (if c[5] > n { (c[5] - n) as u8 } else { 0u8 }));
    assert(d[6] == (if c[6] > n { (c[6] - n) as u8 } else { 0u8 }));
    assert(d[7] == (if c[7] > n { (c[7] - n) as u8 } else { 0u8 }));
    assert(d[8] == (if c[8] > n { (c[8] - n) as u8 } else { 0u8 }));
}

/// Debounce idempotence: a polling tick that carries a fresh press of `b`
/// leaves `b` pressed, whatever its counter held before — repeated presses
/// within the decay window never let the button flap to released.
pub proof fn lemma_debounce_hold(c: Seq<u8>, b: Input)
    requires
        c.len() == BUTTON_COUNT,
    ensures
        spec_active(press_model(decay_model(c), b), b),
{
}

} // verus!
