//! Notifications from the hosting page: a pending resize and the device
//! pixel ratio the page uses for the canvas backing store.
//!
//! The ratio is a binary32 number. It is carried as its IEEE 754 bit pattern,
//! so that every rule about it is a statement about an integer.

use vstd::prelude::*;

verus! {

/// Bit pattern of the ratio one, used until the page supplies a usable ratio.
pub const DEFAULT_DPR_BITS: u32 = 0x3f80_0000;

/// Bit pattern of positive infinity. The patterns of the positive finite
/// numbers are exactly those strictly between zero and this one.
pub const POSITIVE_INFINITY_BITS: u32 = 0x7f80_0000;

/// The sign of a binary32 bit pattern: 1 for negative numbers.
pub open spec fn sign_bit(bits: u32) -> u32 {
    bits >> 31
}

/// The biased exponent of a binary32 bit pattern. The value 255 marks
/// infinities and NaNs.
pub open spec fn exponent_field(bits: u32) -> u32 {
    (bits >> 23) & 0xff
}

/// The fraction of a binary32 bit pattern.
pub open spec fn fraction_field(bits: u32) -> u32 {
    bits & 0x7f_ffff
}

/// Whether a bit pattern denotes a finite number greater than zero: the
/// sign is clear, the exponent is not the reserved one, and the pattern is
/// not that of zero.
pub open spec fn is_positive_finite(bits: u32) -> bool {
    &&& sign_bit(bits) == 0
    &&& exponent_field(bits) != 0xff
    &&& (exponent_field(bits) != 0 || fraction_field(bits) != 0)
}

/// The ratio kept for a ratio offered by the page: the offered one where it
/// is finite and positive, the ratio one otherwise.
pub open spec fn sanitized_dpr(bits: u32) -> u32 {
    if is_positive_finite(bits) {
        bits
    } else {
        DEFAULT_DPR_BITS
    }
}

/// The positive finite numbers occupy one interval of bit patterns.
pub proof fn lemma_positive_finite_is_a_range(bits: u32)
    ensures
        is_positive_finite(bits) <==> 0 < bits < POSITIVE_INFINITY_BITS,
{
    assert((bits >> 31 == 0 && (bits >> 23) & 0xff != 0xff && ((bits >> 23) & 0xff != 0 || bits
        & 0x7f_ffff != 0)) <==> (0 < bits && bits < 0x7f80_0000u32)) by (bit_vector);
}

/// The ratio one is itself finite and positive.
pub proof fn lemma_default_dpr_is_positive_finite()
    ensures
        is_positive_finite(DEFAULT_DPR_BITS),
{
    lemma_positive_finite_is_a_range(DEFAULT_DPR_BITS);
}

/// Sanitizing always yields a finite positive ratio, and changes nothing
/// that already is one.
pub proof fn lemma_sanitized_dpr_is_positive_finite(bits: u32)
    ensures
        is_positive_finite(sanitized_dpr(bits)),
        sanitized_dpr(sanitized_dpr(bits)) == sanitized_dpr(bits),
{
    lemma_default_dpr_is_positive_finite();
}

/// Replaces a ratio that is not finite and positive by the ratio one.
pub fn sanitize_dpr(bits: u32) -> (kept: u32)
    ensures
        kept == sanitized_dpr(bits),
        is_positive_finite(kept),
{
    proof {
        lemma_positive_finite_is_a_range(bits);
        lemma_default_dpr_is_positive_finite();
    }
    if 0 < bits && bits < POSITIVE_INFINITY_BITS {
        bits
    } else {
        DEFAULT_DPR_BITS
    }
}

/// What the hosting page has told the renderer so far.
#[derive(Clone, Copy, Debug)]
pub struct HostSignals {
    needs_resize: bool,
    dpr_bits: u32,
}

impl HostSignals {
    #[verifier::type_invariant]
    spec fn well_formed(&self) -> bool {
        is_positive_finite(self.dpr_bits)
    }

    /// Whether the page has announced a resize that nobody has taken yet.
    pub closed spec fn resize_pending(&self) -> bool {
        self.needs_resize
    }

    /// The bit pattern of the device pixel ratio in force.
    pub closed spec fn dpr(&self) -> u32 {
        self.dpr_bits
    }

    /// The state before the page has said anything: no resize pending, and
    /// a device pixel ratio of one.
    pub fn new() -> (signals: Self)
        ensures
            !signals.resize_pending(),
            signals.dpr() == DEFAULT_DPR_BITS,
    {
        proof {
            lemma_default_dpr_is_positive_finite();
        }
        HostSignals { needs_resize: false, dpr_bits: DEFAULT_DPR_BITS }
    }
}

/// Records that the page has changed the canvas backing size.
pub fn wasm_notify_resize(signals: &mut HostSignals)
    ensures
        final(signals).resize_pending(),
        final(signals).dpr() == old(signals).dpr(),
{
    proof {
        use_type_invariant(&*signals);
    }
    signals.needs_resize = true;
}

/// Records the device pixel ratio the page uses, given as a binary32 bit
/// pattern. A ratio that is not finite and positive is recorded as one.
pub fn wasm_set_dpr(signals: &mut HostSignals, dpr_bits: u32)
    ensures
        final(signals).dpr() == sanitized_dpr(dpr_bits),
        final(signals).resize_pending() == old(signals).resize_pending(),
{
    signals.dpr_bits = sanitize_dpr(dpr_bits);
}

/// Reports whether a resize is pending and clears the mark, so that each
/// announcement is seen once.
pub fn take_needs_resize(signals: &mut HostSignals) -> (pending: bool)
    ensures
        pending == old(signals).resize_pending(),
        !final(signals).resize_pending(),
        final(signals).dpr() == old(signals).dpr(),
{
    proof {
        use_type_invariant(&*signals);
    }
    let cur: bool = signals.needs_resize;
    if cur {
        signals.needs_resize = false;
    }
    cur
}

/// The device pixel ratio in force, as a binary32 bit pattern. It is always
/// that of a finite positive number.
pub fn get_dpr(signals: &HostSignals) -> (dpr_bits: u32)
    ensures
        dpr_bits == signals.dpr(),
        is_positive_finite(dpr_bits),
{
    proof {
        use_type_invariant(signals);
    }
    signals.dpr_bits
}

} // verus!
