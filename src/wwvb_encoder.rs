use vstd::prelude::*;

use crate::bcd_encoder::{
    self, bcd_of, binary_to_bcd, BcdError, UBcdNumber, MAX_REPRESENTABLE_BCD_NUMBER,
};
use crate::calendar::{is_leap_year, is_leap_year_spec, CalendarTime};
use crate::symbol::Symbol;

verus! {

/// Number of symbols in one minute's frame.
pub const FRAME_LENGTH: usize = 60;

/// `High` where the weighted bit `mask` is set in the packed value, else `Low`.
pub open spec fn weighted_bit(bcd: UBcdNumber, mask: UBcdNumber) -> Symbol {
    if bcd & mask != 0 { Symbol::High } else { Symbol::Low }
}

/// Packed BCD value of a field, as the storage word holds it.
pub open spec fn bcd_word(n: nat) -> UBcdNumber {
    bcd_of(n) as UBcdNumber
}

pub open spec fn minutes_field(b: UBcdNumber) -> Seq<Symbol> {
    seq![
        weighted_bit(b, bcd_encoder::BCD_40_MASK),
        weighted_bit(b, bcd_encoder::BCD_20_MASK),
        weighted_bit(b, bcd_encoder::BCD_10_MASK),
        Symbol::Low,
        weighted_bit(b, bcd_encoder::BCD_8_MASK),
        weighted_bit(b, bcd_encoder::BCD_4_MASK),
        weighted_bit(b, bcd_encoder::BCD_2_MASK),
        weighted_bit(b, bcd_encoder::BCD_1_MASK),
    ]
}

pub open spec fn hours_field(b: UBcdNumber) -> Seq<Symbol> {
    seq![
        weighted_bit(b, bcd_encoder::BCD_20_MASK),
        weighted_bit(b, bcd_encoder::BCD_10_MASK),
        Symbol::Low,
        weighted_bit(b, bcd_encoder::BCD_8_MASK),
        weighted_bit(b, bcd_encoder::BCD_4_MASK),
        weighted_bit(b, bcd_encoder::BCD_2_MASK),
        weighted_bit(b, bcd_encoder::BCD_1_MASK),
    ]
}

pub open spec fn day_of_year_field(b: UBcdNumber) -> Seq<Symbol> {
    seq![
        weighted_bit(b, bcd_encoder::BCD_200_MASK),
        weighted_bit(b, bcd_encoder::BCD_100_MASK),
        weighted_bit(b, bcd_encoder::BCD_80_MASK),
        Symbol::Low,
        weighted_bit(b, bcd_encoder::BCD_40_MASK),
        weighted_bit(b, bcd_encoder::BCD_20_MASK),
        weighted_bit(b, bcd_encoder::BCD_10_MASK),
        Symbol::Mark,
        weighted_bit(b, bcd_encoder::BCD_8_MASK),
        weighted_bit(b, bcd_encoder::BCD_4_MASK),
        weighted_bit(b, bcd_encoder::BCD_2_MASK),
        weighted_bit(b, bcd_encoder::BCD_1_MASK),
    ]
}

/// DUT1 sign: fixed at "+".
pub open spec fn dut1_sign_field() -> Seq<Symbol> {
    seq![Symbol::High, Symbol::Low, Symbol::High]
}

/// DUT1 magnitude: fixed at 0.
pub open spec fn dut1_value_field() -> Seq<Symbol> {
    seq![Symbol::Low, Symbol::Low, Symbol::Low, Symbol::Low]
}

pub open spec fn year_field(b: UBcdNumber) -> Seq<Symbol> {
    seq![
        weighted_bit(b, bcd_encoder::BCD_80_MASK),
        weighted_bit(b, bcd_encoder::BCD_40_MASK),
        weighted_bit(b, bcd_encoder::BCD_20_MASK),
        weighted_bit(b, bcd_encoder::BCD_10_MASK),
        Symbol::Mark,
        weighted_bit(b, bcd_encoder::BCD_8_MASK),
        weighted_bit(b, bcd_encoder::BCD_4_MASK),
        weighted_bit(b, bcd_encoder::BCD_2_MASK),
        weighted_bit(b, bcd_encoder::BCD_1_MASK),
    ]
}

pub open spec fn leap_year_field(leap: bool) -> Seq<Symbol> {
    seq![if leap { Symbol::High } else { Symbol::Low }]
}

/// Leap second pending at the end of the month: fixed at "no".
pub open spec fn leap_second_field() -> Seq<Symbol> {
    seq![Symbol::Low]
}

/// Daylight-saving status: fixed at "not in effect".
pub open spec fn dst_status_field() -> Seq<Symbol> {
    seq![Symbol::Low, Symbol::Low]
}

/// The year as the BCD encoder receives it: its value as an unsigned word.
pub open spec fn year_word(year: i32) -> u32 {
    if year >= 0 { year as u32 } else { (year + 0x1_0000_0000) as u32 }
}

/// The minute's frame, field by field.
pub open spec fn frame_of(t: CalendarTime) -> Seq<Symbol> {
    seq![Symbol::Mark] + minutes_field(bcd_word(t.minute as nat)) + seq![
        Symbol::Mark,
        Symbol::Low,
        Symbol::Low,
    ] + hours_field(bcd_word(t.hour as nat)) + seq![Symbol::Mark, Symbol::Low, Symbol::Low]
        + day_of_year_field(bcd_word(t.day_of_year as nat)) + seq![Symbol::Low, Symbol::Low]
        + dut1_sign_field() + seq![Symbol::Mark] + dut1_value_field() + seq![Symbol::Low]
        + year_field(bcd_word(year_word(t.year) as nat)) + seq![Symbol::Low] + leap_year_field(
        is_leap_year_spec(t.year as int),
    ) + leap_second_field() + dst_status_field() + seq![Symbol::Mark]
}

/// The value of the first field, in frame order, that overflows the BCD
/// storage word, if any.
pub open spec fn first_overflow(t: CalendarTime) -> Option<u32> {
    if t.minute > MAX_REPRESENTABLE_BCD_NUMBER {
        Some(t.minute)
    } else if t.hour > MAX_REPRESENTABLE_BCD_NUMBER {
        Some(t.hour)
    } else if t.day_of_year > MAX_REPRESENTABLE_BCD_NUMBER {
        Some(t.day_of_year)
    } else if year_word(t.year) > MAX_REPRESENTABLE_BCD_NUMBER {
        Some(year_word(t.year))
    } else {
        None
    }
}

/// Result of encoding `t`: the frame, or the overflow of its first field that
/// does not fit.
pub open spec fn encoding_of(t: CalendarTime) -> Result<Seq<Symbol>, BcdError> {
    match first_overflow(t) {
        Some(v) => Err(BcdError::NumberTooLarge(v)),
        None => Ok(frame_of(t)),
    }
}

/// Positions of the frame markers.
pub open spec fn is_marker_position(i: int) -> bool {
    i == 0 || i == 9 || i == 19 || i == 29 || i == 39 || i == 49 || i == 59
}

/// Every frame holds exactly 60 symbols, with `Mark` at positions 0, 9, 19,
/// 29, 39, 49 and 59; position 55 is `High` in a leap year and `Low`
/// otherwise.
pub proof fn lemma_frame_layout(t: CalendarTime)
    ensures
        frame_of(t).len() == FRAME_LENGTH,
        forall|i: int| #[trigger] is_marker_position(i) ==> frame_of(t)[i] == Symbol::Mark,
        frame_of(t)[55] == (if is_leap_year_spec(t.year as int) {
            Symbol::High
        } else {
            Symbol::Low
        }),
{
    let f = frame_of(t);
    assert(f.len() == 60);
    assert(f[0] == Symbol::Mark);
    assert(f[9] == Symbol::Mark);
    assert(f[19] == Symbol::Mark);
    assert(f[29] == Symbol::Mark);
    assert(f[39] == Symbol::Mark);
    assert(f[49] == Symbol::Mark);
    assert(f[59] == Symbol::Mark);
}

/// Builds WWVB time-code frames.
pub struct WwvbEncoder;

impl WwvbEncoder {
    /// Encodes one minute of time code. Fails, producing no frame, when a
    /// field's value does not fit the BCD storage word.
    pub fn encode(date_time: CalendarTime) -> (r: Result<Vec<Symbol>, BcdError>)
        ensures
            match r {
                Ok(frame) => encoding_of(date_time) == Ok::<Seq<Symbol>, BcdError>(frame@),
                Err(e) => encoding_of(date_time) == Err::<Seq<Symbol>, BcdError>(e),
            },
            r is Ok <==> first_overflow(date_time) is None,
            date_time.is_valid() && date_time.year >= 0 ==> r is Ok,
            r matches Ok(frame) ==> frame@.len() == FRAME_LENGTH,
    {
        let mut encoded_time: Vec<Symbol> = Vec::new();

        // Start of frame
        encoded_time.push(Symbol::Mark);

        let mut minutes = match Self::get_minutes(date_time.minute) {
            Ok(v) => v,
            Err(e) => return Err(e),
        };
        encoded_time.append(&mut minutes);

        encoded_time.push(Symbol::Mark);
        encoded_time.push(Symbol::Low);
        encoded_time.push(Symbol::Low);

        let mut hours = match Self::get_hours(date_time.hour) {
            Ok(v) => v,
            Err(e) => return Err(e),
        };
        encoded_time.append(&mut hours);

        encoded_time.push(Symbol::Mark);
        encoded_time.push(Symbol::Low);
        encoded_time.push(Symbol::Low);

        let mut day_of_year = match Self::get_day_of_year(date_time.day_of_year) {
            Ok(v) => v,
            Err(e) => return Err(e),
        };
        encoded_time.append(&mut day_of_year);

        encoded_time.push(Symbol::Low);
        encoded_time.push(Symbol::Low);

        encoded_time.append(&mut Self::get_dut1_sign());

        encoded_time.push(Symbol::Mark);

        encoded_time.append(&mut Self::get_dut1_value());

        encoded_time.push(Symbol::Low);

        let mut year = match Self::get_year(date_time.year) {
            Ok(v) => v,
            Err(e) => return Err(e),
        };
        encoded_time.append(&mut year);

        encoded_time.push(Symbol::Low);

        encoded_time.append(&mut Self::get_leap_year_indicator(date_time.year));
        encoded_time.append(&mut Self::get_leap_second_at_end_of_month());
        encoded_time.append(&mut Self::get_dst_status_value());

        // End of frame
        encoded_time.push(Symbol::Mark);

        assert(encoded_time@ =~= frame_of(date_time));
        proof {
            lemma_frame_layout(date_time);
        }
        Ok(encoded_time)
    }

    fn get_symbol(bcd: &UBcdNumber, mask: UBcdNumber) -> (r: Symbol)
        ensures
            r == weighted_bit(*bcd, mask),
    {
        if *bcd & mask != 0 {
            Symbol::High
        } else {
            Symbol::Low
        }
    }

    fn get_minutes(minutes: u32) -> (r: Result<Vec<Symbol>, BcdError>)
        ensures
            minutes <= MAX_REPRESENTABLE_BCD_NUMBER ==> (r matches Ok(v) && v@ == minutes_field(
                bcd_word(minutes as nat),
            )),
            minutes > MAX_REPRESENTABLE_BCD_NUMBER ==> r == Err::<Vec<Symbol>, BcdError>(
                BcdError::NumberTooLarge(minutes),
            ),
    {
        let bcd_minutes = match binary_to_bcd(minutes) {
            Ok(b) => b,
            Err(e) => return Err(e),
        };
        let mut encoded_minutes: Vec<Symbol> = Vec::new();
        encoded_minutes.push(Self::get_symbol(&bcd_minutes, bcd_encoder::BCD_40_MASK));
        encoded_minutes.push(Self::get_symbol(&bcd_minutes, bcd_encoder::BCD_20_MASK));
        encoded_minutes.push(Self::get_symbol(&bcd_minutes, bcd_encoder::BCD_10_MASK));
        encoded_minutes.push(Symbol::Low);
        encoded_minutes.push(Self::get_symbol(&bcd_minutes, bcd_encoder::BCD_8_MASK));
        encoded_minutes.push(Self::get_symbol(&bcd_minutes, bcd_encoder::BCD_4_MASK));
        encoded_minutes.push(Self::get_symbol(&bcd_minutes, bcd_encoder::BCD_2_MASK));
        encoded_minutes.push(Self::get_symbol(&bcd_minutes, bcd_encoder::BCD_1_MASK));
        assert(encoded_minutes@ =~= minutes_field(bcd_minutes));
        Ok(encoded_minutes)
    }

    fn get_hours(hours: u32) -> (r: Result<Vec<Symbol>, BcdError>)
        ensures
            hours <= MAX_REPRESENTABLE_BCD_NUMBER ==> (r matches Ok(v) && v@ == hours_field(
                bcd_word(hours as nat),
            )),
            hours > MAX_REPRESENTABLE_BCD_NUMBER ==> r == Err::<Vec<Symbol>, BcdError>(
                BcdError::NumberTooLarge(hours),
            ),
    {
        let bcd_hours = match binary_to_bcd(hours) {
            Ok(b) => b,
            Err(e) => return Err(e),
        };
        let mut encoded_hours: Vec<Symbol> = Vec::new();
        encoded_hours.push(Self::get_symbol(&bcd_hours, bcd_encoder::BCD_20_MASK));
        encoded_hours.push(Self::get_symbol(&bcd_hours, bcd_encoder::BCD_10_MASK));
        encoded_hours.push(Symbol::Low);
        encoded_hours.push(Self::get_symbol(&bcd_hours, bcd_encoder::BCD_8_MASK));
        encoded_hours.push(Self::get_symbol(&bcd_hours, bcd_encoder::BCD_4_MASK));
        encoded_hours.push(Self::get_symbol(&bcd_hours, bcd_encoder::BCD_2_MASK));
        encoded_hours.push(Self::get_symbol(&bcd_hours, bcd_encoder::BCD_1_MASK));
        assert(encoded_hours@ =~= hours_field(bcd_hours));
        Ok(encoded_hours)
    }

    fn get_day_of_year(day_of_year: u32) -> (r: Result<Vec<Symbol>, BcdError>)
        ensures
            day_of_year <= MAX_REPRESENTABLE_BCD_NUMBER ==> (r matches Ok(v) && v@ == day_of_year_field(
                bcd_word(day_of_year as nat),
            )),
            day_of_year > MAX_REPRESENTABLE_BCD_NUMBER ==> r == Err::<Vec<Symbol>, BcdError>(
                BcdError::NumberTooLarge(day_of_year),
            ),
    {
        let bcd_day = match binary_to_bcd(day_of_year) {
            Ok(b) => b,
            Err(e) => return Err(e),
        };
        let mut encoded_day_of_year: Vec<Symbol> = Vec::new();
        encoded_day_of_year.push(Self::get_symbol(&bcd_day, bcd_encoder::BCD_200_MASK));
        encoded_day_of_year.push(Self::get_symbol(&bcd_day, bcd_encoder::BCD_100_MASK));
        encoded_day_of_year.push(Self::get_symbol(&bcd_day, bcd_encoder::BCD_80_MASK));
        encoded_day_of_year.push(Symbol::Low);
        encoded_day_of_year.push(Self::get_symbol(&bcd_day, bcd_encoder::BCD_40_MASK));
        encoded_day_of_year.push(Self::get_symbol(&bcd_day, bcd_encoder::BCD_20_MASK));
        encoded_day_of_year.push(Self::get_symbol(&bcd_day, bcd_encoder::BCD_10_MASK));
        encoded_day_of_year.push(Symbol::Mark);
        encoded_day_of_year.push(Self::get_symbol(&bcd_day, bcd_encoder::BCD_8_MASK));
        encoded_day_of_year.push(Self::get_symbol(&bcd_day, bcd_encoder::BCD_4_MASK));
        encoded_day_of_year.push(Self::get_symbol(&bcd_day, bcd_encoder::BCD_2_MASK));
        encoded_day_of_year.push(Self::get_symbol(&bcd_day, bcd_encoder::BCD_1_MASK));
        assert(encoded_day_of_year@ =~= day_of_year_field(bcd_day));
        Ok(encoded_day_of_year)
    }

    fn get_dut1_sign() -> (r: Vec<Symbol>)
        ensures
            r@ == dut1_sign_field(),
    {
        let mut encoded_dut1_sign: Vec<Symbol> = Vec::new();
        encoded_dut1_sign.push(Symbol::High);
        encoded_dut1_sign.push(Symbol::Low);
        encoded_dut1_sign.push(Symbol::High);
        assert(encoded_dut1_sign@ =~= dut1_sign_field());
        encoded_dut1_sign
    }

    fn get_dut1_value() -> (r: Vec<Symbol>)
        ensures
            r@ == dut1_value_field(),
    {
        let mut encoded_dut1_value: Vec<Symbol> = Vec::new();
        encoded_dut1_value.push(Symbol::Low);
        encoded_dut1_value.push(Symbol::Low);
        encoded_dut1_value.push(Symbol::Low);
        encoded_dut1_value.push(Symbol::Low);
        assert(encoded_dut1_value@ =~= dut1_value_field());
        encoded_dut1_value
    }

    fn get_year(year: i32) -> (r: Result<Vec<Symbol>, BcdError>)
        ensures
            year_word(year) <= MAX_REPRESENTABLE_BCD_NUMBER ==> (r matches Ok(v) && v@ == year_field(
                bcd_word(year_word(year) as nat),
            )),
            year_word(year) > MAX_REPRESENTABLE_BCD_NUMBER ==> r == Err::<Vec<Symbol>, BcdError>(
                BcdError::NumberTooLarge(year_word(year)),
            ),
    {
        let word: u32 = if year >= 0 {
            year as u32
        } else {
            (year as i64 + 0x1_0000_0000i64) as u32
        };
        let bcd_year = match binary_to_bcd(word) {
            Ok(b) => b,
            Err(e) => return Err(e),
        };
        let mut encoded_year: Vec<Symbol> = Vec::new();
        encoded_year.push(Self::get_symbol(&bcd_year, bcd_encoder::BCD_80_MASK));
        encoded_year.push(Self::get_symbol(&bcd_year, bcd_encoder::BCD_40_MASK));
        encoded_year.push(Self::get_symbol(&bcd_year, bcd_encoder::BCD_20_MASK));
        encoded_year.push(Self::get_symbol(&bcd_year, bcd_encoder::BCD_10_MASK));
        encoded_year.push(Symbol::Mark);
        encoded_year.push(Self::get_symbol(&bcd_year, bcd_encoder::BCD_8_MASK));
        encoded_year.push(Self::get_symbol(&bcd_year, bcd_encoder::BCD_4_MASK));
        encoded_year.push(Self::get_symbol(&bcd_year, bcd_encoder::BCD_2_MASK));
        encoded_year.push(Self::get_symbol(&bcd_year, bcd_encoder::BCD_1_MASK));
        assert(encoded_year@ =~= year_field(bcd_year));
        Ok(encoded_year)
    }

    fn get_leap_year_indicator(year: i32) -> (r: Vec<Symbol>)
        ensures
            r@ == leap_year_field(is_leap_year_spec(year as int)),
    {
        let mut encoded_leap_year: Vec<Symbol> = Vec::new();
        if is_leap_year(year) {
            encoded_leap_year.push(Symbol::High);
        } else {
            encoded_leap_year.push(Symbol::Low);
        }
        assert(encoded_leap_year@ =~= leap_year_field(is_leap_year_spec(year as int)));
        encoded_leap_year
    }

    fn get_leap_second_at_end_of_month() -> (r: Vec<Symbol>)
        ensures
            r@ == leap_second_field(),
    {
        let mut encoded_leap_second: Vec<Symbol> = Vec::new();
        encoded_leap_second.push(Symbol::Low);
        assert(encoded_leap_second@ =~= leap_second_field());
        encoded_leap_second
    }

    fn get_dst_status_value() -> (r: Vec<Symbol>)
        ensures
            r@ == dst_status_field(),
    {
        let mut encoded_dst: Vec<Symbol> = Vec::new();
        encoded_dst.push(Symbol::Low);
        encoded_dst.push(Symbol::Low);
        assert(encoded_dst@ =~= dst_status_field());
        encoded_dst
    }
}

} // verus!
