//! Numbers as they are shown.

use vstd::arithmetic::div_mod;
use vstd::arithmetic::mul;
use vstd::prelude::*;
use vstd::string::*;

use crate::text;
use crate::text::{decimal_text, join2, join3, wide_decimal_text};

verus! {

/// Bytes of a gibibyte.
pub const GIB: u64 = 1_073_741_824;

/// Bytes of a mebibyte.
pub const MIB: u64 = 1_048_576;

/// A number with at least two digits.
pub open spec fn two_digits(n: nat) -> Seq<char> {
    if n < 10 {
        "0"@ + text::decimal(n)
    } else {
        text::decimal(n)
    }
}

fn two_digit_text(n: u64) -> (result: String)
    ensures
        result@ == two_digits(n as nat),
{
    let digits = decimal_text(n);
    if n < 10 {
        join2("0", digits.as_str())
    } else {
        digits
    }
}

/// A count of bytes in gibibytes with two decimals, or below that in mebibytes with one.
pub open spec fn bytes_text(bytes: u64) -> Seq<char> {
    if bytes >= GIB {
        text::decimal(bytes as nat / GIB as nat) + "."@ + two_digits(
            (bytes as nat % GIB as nat) * 100 / GIB as nat,
        ) + " GiB"@
    } else {
        text::decimal(bytes as nat / MIB as nat) + "."@ + text::decimal(
            (bytes as nat % MIB as nat) * 10 / MIB as nat,
        ) + " MiB"@
    }
}

/// A count of bytes as it is shown.
pub fn format_bytes(bytes: u64) -> (result: String)
    ensures
        result@ == bytes_text(bytes),
{
    if bytes >= GIB {
        let whole = decimal_text(bytes / GIB);
        let hundredths = two_digit_text((bytes % GIB) * 100 / GIB);
        let number = join3(whole.as_str(), ".", hundredths.as_str());
        join2(number.as_str(), " GiB")
    } else {
        let whole = decimal_text(bytes / MIB);
        let tenths = decimal_text((bytes % MIB) * 10 / MIB);
        let number = join3(whole.as_str(), ".", tenths.as_str());
        join2(number.as_str(), " MiB")
    }
}

/// A duration in minutes and seconds.
pub open spec fn duration_words(seconds: u64) -> Seq<char> {
    text::decimal(seconds as nat / 60) + ":"@ + two_digits(seconds as nat % 60)
}

/// A duration in minutes and seconds.
pub fn format_duration(seconds: u64) -> (result: String)
    ensures
        result@ == duration_words(seconds),
{
    let minutes = decimal_text(seconds / 60);
    let rest = two_digit_text(seconds % 60);
    join3(minutes.as_str(), ":", rest.as_str())
}

/// How much is done, in thousandths and at most all of it; nothing without a total.
pub open spec fn permille(processed: Option<u64>, total: Option<u64>) -> Option<nat> {
    match (processed, total) {
        (Some(done), Some(all)) => if all > 0 {
            let share = done as nat * 1000 / all as nat;
            Some(
                if share < 1000 {
                    share
                } else {
                    1000
                },
            )
        } else {
            None
        },
        _ => None,
    }
}

/// How much is done, in thousandths. It is shown as the fraction of a bar.
pub fn progress_permille(processed: Option<u64>, total: Option<u64>) -> (result: Option<u16>)
    ensures
        match result {
            Some(share) => permille(processed, total) == Some(share as nat),
            None => permille(processed, total) is None,
        },
{
    match (processed, total) {
        (Some(done), Some(all)) => {
            if all == 0 {
                return None;
            }
            let share: u128 = (done as u128 * 1000) / (all as u128);
            if share < 1000 {
                Some(share as u16)
            } else {
                Some(1000)
            }
        },
        _ => None,
    }
}

/// The share of a bar never leaves its bounds, and never shrinks as more is done.
pub proof fn progress_is_bounded_and_grows(earlier: u64, later: u64, total: u64)
    requires
        total > 0,
        earlier <= later,
    ensures
        permille(Some(earlier), Some(total)) matches Some(before) && (permille(
            Some(later),
            Some(total),
        ) matches Some(after) && before <= after <= 1000),
        permille(Some(total), Some(total)) == Some(1000nat),
{
    let (first, second) = (earlier as int * 1000, later as int * 1000);
    div_mod::lemma_div_is_ordered(first, second, total as int);
    mul::lemma_mul_is_commutative(total as int, 1000);
    div_mod::lemma_div_multiples_vanish(1000, total as int);
}

/// How much is done, in words.
pub open spec fn progress_words(processed: Option<u64>, total: Option<u64>) -> Seq<char> {
    match (processed, total) {
        (Some(done), Some(all)) => bytes_text(done) + " / "@ + bytes_text(all) + "  •  "@
            + text::decimal(
            if all == 0 {
                0
            } else {
                done as nat * 100 / all as nat
            },
        ) + "%"@,
        (Some(done), None) => bytes_text(done),
        _ => Seq::empty(),
    }
}

/// How much is done, in words.
pub fn progress_text(processed: Option<u64>, total: Option<u64>) -> (result: String)
    ensures
        result@ == progress_words(processed, total),
{
    match (processed, total) {
        (Some(done), Some(all)) => {
            let percent: u128 = if all == 0 {
                0
            } else {
                (done as u128 * 100) / (all as u128)
            };
            let shown_done = format_bytes(done);
            let shown_all = format_bytes(all);
            let amount = join3(shown_done.as_str(), " / ", shown_all.as_str());
            let number = wide_decimal_text(percent);
            let start = join3(amount.as_str(), "  •  ", number.as_str());
            join2(start.as_str(), "%")
        },
        (Some(done), None) => format_bytes(done),
        _ => {
            let result = String::new();
            assert(result@ =~= Seq::<char>::empty());
            result
        },
    }
}

/// The share of a bar is the whole thousandths that are done, and all of it once everything is; a
/// bar has a share exactly where both counts are known and the total is not zero.
pub proof fn share_is_the_whole_thousandths(processed: Option<u64>, total: Option<u64>)
    ensures
        permille(processed, total) is Some <==> processed is Some && total is Some && total->0 > 0,
        permille(processed, total) matches Some(share) ==> {
            &&& share <= 1000
            &&& share == 1000 <==> processed->0 >= total->0
            &&& share < 1000 ==> share * total->0 <= processed->0 * 1000 < (share + 1) * total->0
        },
{
    if let (Some(done), Some(all)) = (processed, total) {
        if all > 0 {
            let (dividend, divisor) = (done as int * 1000, all as int);
            let share = dividend / divisor;
            div_mod::lemma_fundamental_div_mod(dividend, divisor);
            div_mod::lemma_mod_bound(dividend, divisor);
            mul::lemma_mul_is_commutative(divisor, share);
            mul::lemma_mul_is_distributive_add_other_way(divisor, share, 1);
            assert(share * divisor <= dividend < (share + 1) * divisor);
            if done >= all {
                if share < 1000 {
                    mul::lemma_mul_inequality(share + 1, 1000, divisor);
                    mul::lemma_mul_is_commutative(1000, divisor);
                }
            } else {
                if share >= 1000 {
                    mul::lemma_mul_inequality(1000, share, divisor);
                    mul::lemma_mul_is_commutative(1000, divisor);
                }
            }
        }
    }
}

/// A duration is shown as minutes and seconds that add up to it, with fewer than sixty seconds, of
/// which always two digits are shown.
pub proof fn shown_duration_adds_up(seconds: u64) -> (shown: (nat, nat))
    ensures
        60 * shown.0 + shown.1 == seconds,
        shown.1 < 60,
        duration_words(seconds) == text::decimal(shown.0) + ":"@ + (if shown.1 < 10 {
            "0"@
        } else {
            Seq::empty()
        }) + text::decimal(shown.1),
{
    let shown = (seconds as nat / 60, seconds as nat % 60);
    let (front, back) = (text::decimal(shown.0) + ":"@, text::decimal(shown.1));
    assert(front + ("0"@ + back) =~= front + "0"@ + back);
    assert(front + back =~= front + Seq::<char>::empty() + back);
    shown
}

/// A count of bytes is shown by whole and hundredth gibibytes, or below one gibibyte by whole and
/// tenth mebibytes: never more than there is, and short of it by less than the last digit counts.
pub proof fn shown_bytes_are_near(bytes: u64) -> (shown: (nat, nat))
    ensures
        bytes >= 1_073_741_824 ==> {
            &&& bytes_text(bytes) == text::decimal(shown.0) + "."@ + two_digits(shown.1) + " GiB"@
            &&& shown.1 < 100
            &&& (100 * shown.0 + shown.1) * 1_073_741_824 <= 100 * bytes < (100 * shown.0 + shown.1
                + 1) * 1_073_741_824
        },
        bytes < 1_073_741_824 ==> {
            &&& bytes_text(bytes) == text::decimal(shown.0) + "."@ + text::decimal(shown.1)
                + " MiB"@
            &&& shown.1 < 10
            &&& (10 * shown.0 + shown.1) * 1_048_576 <= 10 * bytes < (10 * shown.0 + shown.1 + 1)
                * 1_048_576
        },
{
    if bytes >= GIB {
        (bytes as nat / GIB as nat, (bytes as nat % GIB as nat) * 100 / GIB as nat)
    } else {
        (bytes as nat / MIB as nat, (bytes as nat % MIB as nat) * 10 / MIB as nat)
    }
}

/// In words, the amount done stands before the total and the whole percent of it that is done; with
/// no total only the amount is shown, and with no amount nothing.
pub proof fn progress_in_words_says_both_amounts(done: u64, all: u64) -> (percent: nat)
    ensures
        progress_words(Some(done), Some(all)) == bytes_text(done) + " / "@ + bytes_text(all)
            + "  •  "@ + text::decimal(percent) + "%"@,
        all == 0 ==> percent == 0,
        all > 0 ==> percent * all <= done * 100 < (percent + 1) * all,
        progress_words(Some(done), None) == bytes_text(done),
        progress_words(None, Some(all)).len() == 0,
        progress_words(None, None).len() == 0,
{
    if all == 0 {
        0
    } else {
        let (dividend, divisor) = (done as int * 100, all as int);
        let percent = dividend / divisor;
        div_mod::lemma_fundamental_div_mod(dividend, divisor);
        div_mod::lemma_mod_bound(dividend, divisor);
        mul::lemma_mul_is_commutative(divisor, percent);
        mul::lemma_mul_is_distributive_add_other_way(divisor, percent, 1);
        done as nat * 100 / all as nat
    }
}

} // verus!
