//! Pin multiplexing: which pins are taken, and the port control registers
//! that select a pin's function.

use vstd::prelude::*;

verus! {

/// Ports A to E.
pub const NUM_PORTS: usize = 5;

/// Pins of one port.
pub const PIN_PER_PORT: usize = 32;

/// PCR bits 10:8: the pin's function.
pub const PCR_MUX: u32 = 0x700;

/// PCR function field set to alternative 2, the FlexTimer.
pub const PCR_MUX_ALT2_FTM: u32 = 0x200;

/// The pin control registers of one port.
#[derive(Clone, Copy, Debug, PartialEq, Eq)]
pub struct PortRegisters {
    pub pcr: [u32; PIN_PER_PORT],
}

/// Which pins were handed out: one word for each port, one bit for each
/// pin.
#[derive(Clone, Copy, Debug, PartialEq, Eq)]
pub struct UsedPins {
    pub ports: [u32; NUM_PORTS],
}

/// The bit that stands for pin `pin` in its port's word.
pub open spec fn pin_bit(pin: usize) -> u32 {
    1u32 << pin
}

/// Pin `pin` of port `port` is marked in `words`.
pub open spec fn marked(words: Seq<u32>, port: usize, pin: usize) -> bool {
    words[port as int] & pin_bit(pin) != 0
}

/// The pin's own bit is set once it is or-ed in, and no other bit changes.
proof fn lemma_mark(word: u32, pin: u32, other: u32)
    by (bit_vector)
    requires
        pin < 32,
        other < 32,
    ensures
        (word | (1u32 << pin)) & (1u32 << pin) != 0,
        other != pin ==> (word | (1u32 << pin)) & (1u32 << other) == word & (1u32 << other),
{
}

impl UsedPins {
    /// No pin is taken.
    pub fn new() -> (used: Self)
        ensures
            used.ports@ == seq![0u32, 0u32, 0u32, 0u32, 0u32],
            forall|port: usize, pin: usize|
                port < NUM_PORTS && pin < PIN_PER_PORT ==> !used.is_taken(port, pin),
    {
        let used = UsedPins { ports: [0, 0, 0, 0, 0] };
        assert(used.ports@ =~= seq![0u32, 0u32, 0u32, 0u32, 0u32]);
        assert forall|port: usize, pin: usize|
            port < NUM_PORTS && pin < PIN_PER_PORT implies !used.is_taken(port, pin) by {
            assert(0u32 & (1u32 << pin) == 0) by (bit_vector);
        }
        used
    }

    /// Pin `pin` of port `port` was handed out.
    pub open spec fn is_taken(self, port: usize, pin: usize) -> bool {
        marked(self.ports@, port, pin)
    }

    /// Tells whether pin `pin` of port `port` was handed out.
    pub fn is_used(&self, port: usize, pin: usize) -> (used: bool)
        requires
            port < NUM_PORTS,
            pin < PIN_PER_PORT,
        ensures
            used == self.is_taken(port, pin),
    {
        self.ports[port] & (1u32 << pin) != 0
    }
}

/// A pin that was handed out for multiplexing.
#[derive(Clone, Copy, Debug, PartialEq, Eq)]
pub struct Pinmux {
    port: usize,
    pin: usize,
}

impl Pinmux {
    #[verifier::type_invariant]
    spec fn valid(self) -> bool {
        self.port < NUM_PORTS && self.pin < PIN_PER_PORT
    }

    /// The port, 0 for A to 4 for E.
    pub closed spec fn port(self) -> usize {
        self.port
    }

    /// The pin within the port, 0 to 31.
    pub closed spec fn pin(self) -> usize {
        self.pin
    }

    /// Hands out pin `pin` of port `port` and marks it as taken. The pin
    /// must exist and must not have been handed out before.
    pub fn new(port: usize, pin: usize, used: &mut UsedPins) -> (pinmux: Pinmux)
        requires
            port < NUM_PORTS,
            pin < PIN_PER_PORT,
            !old(used).is_taken(port, pin),
        ensures
            pinmux.port() == port,
            pinmux.pin() == pin,
            final(used).ports@ == old(used).ports@.update(
                port as int,
                old(used).ports[port as int] | pin_bit(pin),
            ),
            final(used).is_taken(port, pin),
            forall|p: usize, q: usize|
                p < NUM_PORTS && q < PIN_PER_PORT && (p != port || q != pin)
                    ==> final(used).is_taken(p, q) == old(used).is_taken(p, q),
    {
        let word = used.ports[port];
        proof {
            assert forall|q: usize| q < PIN_PER_PORT implies (word | (1u32 << pin)) & (1u32 << q)
                == if q == pin {
                (word | (1u32 << pin)) & (1u32 << q)
            } else {
                word & (1u32 << q)
            } by {
                lemma_mark(word, pin as u32, q as u32);
                assert(1u32 << q == 1u32 << (q as u32));
                assert(1u32 << pin == 1u32 << (pin as u32));
            }
            lemma_mark(word, pin as u32, pin as u32);
            assert(1u32 << pin == 1u32 << (pin as u32));
        }
        used.ports[port] = word | (1u32 << pin);
        Pinmux { port, pin }
    }

    /// The port and the pin, as a pair.
    pub fn port_pin(self) -> (pair: (usize, usize))
        ensures
            pair == (self.port(), self.pin()),
            pair.0 < NUM_PORTS,
            pair.1 < PIN_PER_PORT,
    {
        proof {
            use_type_invariant(&self);
        }
        (self.port, self.pin)
    }
}

/// The port and the pin of a pin that was handed out.
impl From<Pinmux> for (usize, usize) {
    fn from(val: Pinmux) -> (pair: (usize, usize)) {
        val.port_pin()
    }
}

/// What the conversion to a pair gives.
impl vstd::std_specs::convert::FromSpecImpl<Pinmux> for (usize, usize) {
    open spec fn obeys_from_spec() -> bool {
        true
    }

    open spec fn from_spec(val: Pinmux) -> (usize, usize) {
        (val.port(), val.pin())
    }
}

} // verus!
