//! How durations show on screen.
use crate::text::{decimal, decimal_pad2, push_char, push_decimal, push_decimal_pad2};
use vstd::prelude::*;

verus! {

/// The text of a duration in whole seconds: `"H:MM:SS"` style with every part padded
/// to two digits when there is at least one hour, `"M:SS"` otherwise. Negative
/// durations count as zero.
pub open spec fn time_text(seconds: int) -> Seq<char> {
    let total: nat = if seconds < 0 {
        0
    } else {
        seconds as nat
    };
    let hours = total / 3600;
    let minutes = (total % 3600) / 60;
    let secs = total % 60;
    if hours > 0 {
        decimal_pad2(hours) + seq![':'] + decimal_pad2(minutes) + seq![':'] + decimal_pad2(secs)
    } else {
        decimal(minutes) + seq![':'] + decimal_pad2(secs)
    }
}

/// Renders a duration in whole seconds as a clock text (see [`time_text`]).
pub fn format_into_time(seconds: i32) -> (r: String)
    ensures
        r@ == time_text(seconds as int),
{
    let total: u64 = if seconds < 0 {
        0
    } else {
        seconds as u64
    };
    let hours = total / 3600;
    let minutes = (total % 3600) / 60;
    let secs = total % 60;
    let mut s = String::new();
    if hours > 0 {
        push_decimal_pad2(&mut s, hours);
        push_char(&mut s, ':');
        push_decimal_pad2(&mut s, minutes);
        push_char(&mut s, ':');
        push_decimal_pad2(&mut s, secs);
    } else {
        push_decimal(&mut s, minutes);
        push_char(&mut s, ':');
        push_decimal_pad2(&mut s, secs);
    }
    assert(s@ =~= time_text(seconds as int));
    s
}

} // verus!
