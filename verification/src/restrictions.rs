//! Restricted mode: a passcode guards games rated for adults and the
//! launcher's settings.
use vstd::prelude::*;

verus! {

/// The most digits a passcode holds; further digits are ignored.
pub const PASSCODE_CAPACITY: usize = 8;

/// How many wrong passcodes may be entered before verification gives up.
pub const MAX_ATTEMPTS: u8 = 3;

/// A passcode: a sequence of digits, each the code of a key or action.
#[derive(Copy, Clone)]
pub struct RestrictedPasscode {
    pub code: [u32; 8],
    pub len: usize,
}

/// How an entered passcode compares with the expected one.
#[derive(Copy, Clone, Debug, PartialEq, Eq, Structural)]
pub enum PasscodeEquality {
    /// The lengths differ: the passcode is not complete yet.
    Incomplete,
    /// The lengths agree but the digits do not.
    Lengths,
    /// The passcodes are the same.
    Total,
}

/// The digits entered so far.
pub open spec fn spec_digits(p: RestrictedPasscode) -> Seq<u32> {
    p.code@.take(p.len as int)
}

/// The digits after one more is entered.
pub open spec fn spec_add_digit(digits: Seq<u32>, digit: u32) -> Seq<u32> {
    if digits.len() < PASSCODE_CAPACITY {
        digits.push(digit)
    } else {
        digits
    }
}

/// How the digits `a` compare with the digits `b`.
pub open spec fn spec_passcode_equality(a: Seq<u32>, b: Seq<u32>) -> PasscodeEquality {
    if a.len() != b.len() {
        PasscodeEquality::Incomplete
    } else if a == b {
        PasscodeEquality::Total
    } else {
        PasscodeEquality::Lengths
    }
}

impl RestrictedPasscode {
    /// The length never exceeds the capacity.
    pub open spec fn wf(&self) -> bool {
        self.len <= PASSCODE_CAPACITY
    }

    /// The number of digits entered.
    pub fn len(&self) -> (n: usize)
        requires
            self.wf(),
        ensures
            n == spec_digits(*self).len(),
    {
        self.len
    }

    /// Enters `digit`, unless the passcode is full.
    pub fn add_digit(&mut self, digit: u32)
        requires
            old(self).wf(),
        ensures
            final(self).wf(),
            spec_digits(*final(self)) == spec_add_digit(spec_digits(*old(self)), digit),
    {
        if self.len < PASSCODE_CAPACITY {
            let ghost before = spec_digits(*self);
            self.code[self.len] = digit;
            self.len = self.len + 1;
            assert(spec_digits(*self) =~= before.push(digit));
        }
    }
}

impl Default for RestrictedPasscode {
    /// A passcode with no digits.
    fn default() -> (p: RestrictedPasscode)
        ensures
            p.wf(),
            spec_digits(p) == Seq::<u32>::empty(),
    {
        let p = RestrictedPasscode { code: [0u32; 8], len: 0 };
        assert(spec_digits(p) =~= Seq::<u32>::empty());
        p
    }
}

/// Compares the entered passcode `a` with the expected passcode `b`.
pub fn passcodes_equal(a: &RestrictedPasscode, b: &RestrictedPasscode) -> (r: PasscodeEquality)
    requires
        a.wf(),
        b.wf(),
    ensures
        r == spec_passcode_equality(spec_digits(*a), spec_digits(*b)),
{
    if a.len != b.len {
        return PasscodeEquality::Incomplete;
    }
    let mut i: usize = 0;
    while i < a.len
        invariant
            a.wf(),
            b.wf(),
            a.len == b.len,
            i <= a.len,
            forall|j: int| 0 <= j < i ==> a.code@[j] == b.code@[j],
        decreases a.len - i,
    {
        if a.code[i] != b.code[i] {
            assert(spec_digits(*a)[i as int] != spec_digits(*b)[i as int]);
            return PasscodeEquality::Lengths;
        }
        i = i + 1;
    }
    assert(spec_digits(*a) =~= spec_digits(*b));
    PasscodeEquality::Total
}

/// Whether restricted mode is on, and with which passcode.
#[derive(Copy, Clone)]
pub enum RestrictedMode {
    On(RestrictedPasscode),
    Off,
}

/// The passcode of restricted mode, when on, is well formed.
pub open spec fn spec_mode_wf(mode: RestrictedMode) -> bool {
    match mode {
        RestrictedMode::On(p) => p.wf(),
        RestrictedMode::Off => true,
    }
}

/// Restricted mode after the passcode `pass` is set in the restricted mode
/// dialog: when off, it turns on with `pass`; when on, it turns off if
/// `pass` is the passcode it was turned on with, and stays as it is
/// otherwise.
pub open spec fn spec_set_restricted(mode: RestrictedMode, pass: RestrictedPasscode) -> RestrictedMode {
    match mode {
        RestrictedMode::Off => RestrictedMode::On(pass),
        RestrictedMode::On(current) => if spec_digits(pass) == spec_digits(current) {
            RestrictedMode::Off
        } else {
            mode
        },
    }
}

/// Sets the passcode `pass` in the restricted mode dialog (see
/// [`spec_set_restricted`]).
pub fn set_restricted_mode(mode: RestrictedMode, pass: RestrictedPasscode) -> (r: RestrictedMode)
    requires
        spec_mode_wf(mode),
        pass.wf(),
    ensures
        r == spec_set_restricted(mode, pass),
        spec_mode_wf(r),
{
    match mode {
        RestrictedMode::Off => RestrictedMode::On(pass),
        RestrictedMode::On(current) => match passcodes_equal(&pass, &current) {
            PasscodeEquality::Total => RestrictedMode::Off,
            _ => mode,
        },
    }
}

/// Turning restricted mode on with a passcode and then entering the same
/// digits turns it off again; entering other digits leaves it on with the
/// first passcode.
pub proof fn lemma_enable_then_disable(pass: RestrictedPasscode, entered: RestrictedPasscode)
    ensures
        spec_digits(entered) == spec_digits(pass) ==> spec_set_restricted(
            spec_set_restricted(RestrictedMode::Off, pass),
            entered,
        ) == RestrictedMode::Off,
        spec_digits(entered) != spec_digits(pass) ==> spec_set_restricted(
            spec_set_restricted(RestrictedMode::Off, pass),
            entered,
        ) == RestrictedMode::On(pass),
{
}

} // verus!
