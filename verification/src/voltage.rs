//! Control voltages in fixed point, and their quantization for a
//! digital-to-analog converter.
//!
//! A voltage is a whole number of microvolts: far finer than the step of a
//! 12-bit converter, and exact where the voltages of a keyboard need it.

use vstd::prelude::*;

verus! {

/// How many microvolts make one volt.
pub const MICROVOLTS_PER_VOLT: i64 = 1_000_000;

/// How many half steps make one octave.
pub const HALF_STEPS_PER_OCTAVE: u64 = 12;

/// `value` times `numerator` over `denominator`, rounded towards zero.
pub open spec fn scaled(value: int, numerator: int, denominator: int) -> int {
    if value >= 0 {
        (value * numerator) / denominator
    } else {
        -((-value * numerator) / denominator)
    }
}

/// The voltage `part` of `whole` of the way from `from` to `to`, rounded
/// towards `from`.
pub open spec fn between(from: int, to: int, part: int, whole: int) -> int {
    from + scaled(to - from, part, whole)
}

/// A fraction of a distance is no longer than the distance, and the whole of
/// it is the distance itself.
pub proof fn lemma_scaled_within(value: int, part: int, whole: int)
    requires
        0 <= part <= whole,
        0 < whole,
    ensures
        value >= 0 ==> 0 <= scaled(value, part, whole) <= value,
        value <= 0 ==> value <= scaled(value, part, whole) <= 0,
        scaled(value, whole, whole) == value,
        scaled(value, 0, whole) == 0,
{
    let size = if value >= 0 { value } else { -value };
    assert(0 <= (size * part) / whole <= size) by (nonlinear_arith)
        requires
            0 <= part <= whole,
            0 < whole,
            0 <= size,
    ;
    assert((size * whole) / whole == size) by (nonlinear_arith)
        requires
            0 < whole,
    ;
    assert((size * 0) / whole == 0) by (nonlinear_arith)
        requires
            0 < whole,
    ;
}

/// An electric potential, in whole microvolts.
#[derive(Clone, Copy, Debug, PartialEq, Eq, PartialOrd, Ord, Hash, Structural)]
pub struct Voltage {
    microvolts: i64,
}

impl View for Voltage {
    type V = int;

    /// The voltage in microvolts.
    closed spec fn view(&self) -> int {
        self.microvolts as int
    }
}

impl Voltage {
    /// The microvolts of a voltage fit 64 bits.
    pub broadcast proof fn lemma_fits(self)
        ensures
            i64::MIN <= #[trigger] self@ <= i64::MAX,
    {
    }

    /// Two voltages of as many microvolts are the same voltage.
    pub broadcast proof fn lemma_same_microvolts(self, other: Voltage)
        ensures
            #[trigger] self@ == #[trigger] other@ ==> self == other,
    {
    }

    /// The voltage of `microvolts` microvolts.
    pub fn from_microvolts(microvolts: i64) -> (voltage: Voltage)
        ensures
            voltage@ == microvolts,
    {
        Voltage { microvolts }
    }

    /// The voltage of `millivolts` millivolts.
    pub fn from_millivolts(millivolts: i64) -> (voltage: Voltage)
        requires
            i64::MIN <= millivolts * 1_000 <= i64::MAX,
        ensures
            voltage@ == millivolts * 1_000,
    {
        Voltage { microvolts: millivolts * 1_000 }
    }

    /// The voltage of `volts` volts.
    pub fn from_volts(volts: i64) -> (voltage: Voltage)
        requires
            i64::MIN <= volts * MICROVOLTS_PER_VOLT <= i64::MAX,
        ensures
            voltage@ == volts * MICROVOLTS_PER_VOLT,
    {
        Voltage { microvolts: volts * MICROVOLTS_PER_VOLT }
    }

    /// The voltage in microvolts.
    pub fn as_microvolts(&self) -> (microvolts: i64)
        ensures
            microvolts == self@,
    {
        self.microvolts
    }

    /// The sum of two voltages.
    pub fn plus(self, other: Voltage) -> (sum: Voltage)
        requires
            i64::MIN <= self@ + other@ <= i64::MAX,
        ensures
            sum@ == self@ + other@,
    {
        Voltage { microvolts: self.microvolts + other.microvolts }
    }

    /// The difference of two voltages.
    pub fn minus(self, other: Voltage) -> (difference: Voltage)
        requires
            i64::MIN <= self@ - other@ <= i64::MAX,
        ensures
            difference@ == self@ - other@,
    {
        Voltage { microvolts: self.microvolts - other.microvolts }
    }

    /// This voltage times `numerator` over `denominator`, rounded towards
    /// zero.
    pub fn scale(self, numerator: u64, denominator: u64) -> (product: Voltage)
        requires
            denominator > 0,
            i64::MIN <= scaled(self@, numerator as int, denominator as int) <= i64::MAX,
        ensures
            product@ == scaled(self@, numerator as int, denominator as int),
    {
        let wide: i128 = self.microvolts as i128;
        let size: u128 = if wide >= 0 { wide as u128 } else { (-wide) as u128 };
        assert(size * numerator <= u64::MAX * u64::MAX) by (nonlinear_arith)
            requires
                size <= u64::MAX,
                numerator <= u64::MAX,
        ;
        let part: u128 = size * (numerator as u128) / (denominator as u128);
        if wide >= 0 {
            Voltage { microvolts: part as i64 }
        } else {
            Voltage { microvolts: (-(part as i128)) as i64 }
        }
    }

    /// The voltage `part` of `whole` of the way from this one to `target`,
    /// rounded towards this one.
    pub fn toward(self, target: Voltage, part: u64, whole: u64) -> (reached: Voltage)
        requires
            part <= whole,
            whole > 0,
        ensures
            reached@ == between(self@, target@, part as int, whole as int),
    {
        let from: i128 = self.microvolts as i128;
        let to: i128 = target.microvolts as i128;
        let size: u128 = if to >= from { (to - from) as u128 } else { (from - to) as u128 };
        assert(size * part <= u64::MAX * u64::MAX) by (nonlinear_arith)
            requires
                size <= u64::MAX,
                part <= u64::MAX,
        ;
        let step: u128 = size * (part as u128) / (whole as u128);
        proof {
            lemma_scaled_within(to - from, part as int, whole as int);
        }
        if to >= from {
            Voltage { microvolts: (from + step as i128) as i64 }
        } else {
            Voltage { microvolts: (from - step as i128) as i64 }
        }
    }
}

/// The reference voltage of the converter, in microvolts: a third of ten
/// volts, to the microvolt.
pub const DAC_REFERENCE_MICROVOLTS: i64 = 3_333_333;

/// How many bits a code of the converter has.
pub const DAC_BITS: u8 = 12;

/// The widest code that `voltage_to_code` gives, in bits.
pub const MAX_CODE_BITS: u8 = 16;

/// The highest code of `bits` bits: two to the power `bits`, less one.
pub open spec fn full_scale(bits: nat) -> int
    decreases bits,
{
    if bits == 0 {
        0
    } else {
        2 * full_scale((bits - 1) as nat) + 1
    }
}

/// The code that stands for `voltage`, in microvolts, on a converter that
/// gives `reference` at its highest code `max_code`: the voltage as a
/// fraction of the reference, times the highest code, rounded to the nearest
/// code, a half upwards. Voltages below zero get code 0 and voltages above
/// the reference get the highest code.
pub open spec fn dac_code(voltage: int, reference: int, max_code: int) -> int {
    let rounded = (2 * voltage * max_code + reference) / (2 * reference);
    if rounded < 0 {
        0
    } else if rounded > max_code {
        max_code
    } else {
        rounded
    }
}

/// The voltage, in microvolts, that the converter gives for `code`, rounded
/// down to a microvolt.
pub open spec fn code_voltage(code: int, reference: int, max_code: int) -> int {
    (code * reference) / max_code
}

/// The highest code of up to 16 bits fits 16 bits, and more bits reach
/// higher.
pub proof fn lemma_full_scale(bits: nat)
    ensures
        0 <= full_scale(bits),
        bits >= 1 ==> full_scale(bits) >= 1,
        bits <= 16 ==> full_scale(bits) <= 65_535,
        full_scale(12) == 4_095,
    decreases bits,
{
    reveal_with_fuel(full_scale, 13);
    if bits > 0 {
        lemma_full_scale((bits - 1) as nat);
    }
    if bits <= 16 {
        lemma_full_scale_grows(bits, 16);
        assert(full_scale(16) == 65_535) by {
            reveal_with_fuel(full_scale, 17);
        }
    }
}

/// More bits reach at least as high.
proof fn lemma_full_scale_grows(fewer: nat, more: nat)
    requires
        fewer <= more,
    ensures
        0 <= full_scale(fewer) <= full_scale(more),
    decreases more,
{
    if fewer < more {
        lemma_full_scale_grows(fewer, (more - 1) as nat);
    } else if fewer > 0 {
        lemma_full_scale_grows((fewer - 1) as nat, (fewer - 1) as nat);
    }
}

/// Turning a voltage into a code and the code back into a voltage misses
/// the voltage by no more than the voltage of one code. This holds of the
/// voltages that the converter can give, from zero to the reference, where
/// one code is worth a microvolt or more.
pub proof fn lemma_quantization_round_trip(voltage: int, reference: int, max_code: int)
    requires
        0 <= voltage <= reference,
        1 <= max_code <= reference,
    ensures
        0 <= dac_code(voltage, reference, max_code) <= max_code,
        ({
            let back = code_voltage(dac_code(voltage, reference, max_code), reference, max_code);
            &&& max_code * (back - voltage) <= reference
            &&& max_code * (voltage - back) <= reference
        }),
{
    let top = 2 * voltage * max_code + reference;
    let rounded = top / (2 * reference);
    assert(2 * reference * rounded <= top < 2 * reference * rounded + 2 * reference) by {
        vstd::arithmetic::div_mod::lemma_fundamental_div_mod(top, 2 * reference);
        vstd::arithmetic::div_mod::lemma_mod_bound(top, 2 * reference);
    }
    assert(0 <= rounded <= max_code) by (nonlinear_arith)
        requires
            2 * reference * rounded <= top < 2 * reference * rounded + 2 * reference,
            top == 2 * voltage * max_code + reference,
            0 <= voltage <= reference,
            1 <= max_code <= reference,
    ;
    let code = dac_code(voltage, reference, max_code);
    let back = (code * reference) / max_code;
    assert(max_code * back <= code * reference < max_code * back + max_code) by {
        vstd::arithmetic::div_mod::lemma_fundamental_div_mod(code * reference, max_code);
        vstd::arithmetic::div_mod::lemma_mod_bound(code * reference, max_code);
    }
    assert(max_code * (back - voltage) <= reference) by (nonlinear_arith)
        requires
            max_code * back <= code * reference,
            2 * reference * code <= 2 * voltage * max_code + reference,
            reference >= 0,
    ;
    assert(max_code * (voltage - back) <= reference) by (nonlinear_arith)
        requires
            code * reference < max_code * back + max_code,
            2 * voltage * max_code + reference < 2 * reference * code + 2 * reference,
            1 <= max_code <= reference,
    ;
}

/// The highest code of `bits` bits.
pub fn max_code(bits: u8) -> (code: u16)
    requires
        bits <= MAX_CODE_BITS,
    ensures
        code == full_scale(bits as nat),
{
    let mut code: u16 = 0;
    let mut done: u8 = 0;
    while done < bits
        invariant
            done <= bits <= MAX_CODE_BITS,
            code == full_scale(done as nat),
        decreases bits - done,
    {
        proof {
            lemma_full_scale((done + 1) as nat);
        }
        code = 2 * code + 1;
        done += 1;
    }
    code
}

/// The code that stands for `voltage` on a converter of `bits` bits with
/// the reference voltage `reference`.
pub fn voltage_to_code(voltage: Voltage, reference: Voltage, bits: u8) -> (code: u16)
    requires
        reference@ > 0,
        bits <= MAX_CODE_BITS,
    ensures
        code == dac_code(voltage@, reference@, full_scale(bits as nat)),
{
    let top_code: u16 = max_code(bits);
    if voltage.microvolts <= 0 {
        assert((2 * voltage@ * top_code + reference@) / (2 * reference@) <= 0) by (nonlinear_arith)
            requires
                voltage@ <= 0,
                top_code >= 0,
                reference@ > 0,
        ;
        return 0;
    }
    let wide: u128 = voltage.microvolts as u128;
    let span: u128 = reference.microvolts as u128;
    assert(2 * wide * top_code + span <= 2 * 0x7fff_ffff_ffff_ffff * 65_535 + 0x7fff_ffff_ffff_ffff)
        by (nonlinear_arith)
        requires
            0 <= wide <= 0x7fff_ffff_ffff_ffff,
            0 <= top_code <= 65_535,
            0 <= span <= 0x7fff_ffff_ffff_ffff,
    ;
    let rounded: u128 = (2 * wide * (top_code as u128) + span) / (2 * span);
    if rounded > top_code as u128 {
        top_code
    } else {
        rounded as u16
    }
}

/// The voltage that a converter of `bits` bits with the reference voltage
/// `reference` gives for `code`.
pub fn code_to_voltage(code: u16, reference: Voltage, bits: u8) -> (voltage: Voltage)
    requires
        reference@ > 0,
        1 <= bits <= MAX_CODE_BITS,
        code <= full_scale(bits as nat),
    ensures
        voltage@ == code_voltage(code as int, reference@, full_scale(bits as nat)),
{
    let top_code: u16 = max_code(bits);
    proof {
        lemma_full_scale(bits as nat);
    }
    let span: u128 = reference.microvolts as u128;
    assert(code * span <= 65_535 * 0x7fff_ffff_ffff_ffff) by (nonlinear_arith)
        requires
            0 <= code <= 65_535,
            0 <= span <= 0x7fff_ffff_ffff_ffff,
    ;
    let given: u128 = (code as u128) * span / (top_code as u128);
    assert(given <= span) by (nonlinear_arith)
        requires
            given == (code * span) / (top_code as int),
            0 <= code <= top_code,
            1 <= top_code,
            0 <= span,
    ;
    Voltage { microvolts: given as i64 }
}

/// The 12-bit code that makes the converter of the adapter give `voltage`.
pub fn voltage_to_dac_value(voltage: Voltage) -> (code: u16)
    ensures
        code == dac_code(voltage@, DAC_REFERENCE_MICROVOLTS as int, 4_095),
        code <= 4_095,
{
    proof {
        lemma_full_scale(12);
    }
    voltage_to_code(voltage, Voltage { microvolts: DAC_REFERENCE_MICROVOLTS }, DAC_BITS)
}

/// The voltage that the converter of the adapter gives for the 12-bit code
/// `code`.
pub fn dac_value_to_voltage(code: u16) -> (voltage: Voltage)
    requires
        code <= 4_095,
    ensures
        voltage@ == code_voltage(code as int, DAC_REFERENCE_MICROVOLTS as int, 4_095),
{
    proof {
        lemma_full_scale(12);
    }
    code_to_voltage(code, Voltage { microvolts: DAC_REFERENCE_MICROVOLTS }, DAC_BITS)
}

} // verus!
