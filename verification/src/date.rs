//! UTC timestamps as plain calendar fields.
//!
//! A timestamp travels on the wire as the string `YYYY-MM-DDTHH:MM:SSZ`.
//! The library holds it as plain integer fields and renders it itself, so
//! the rendering is part of the verified logic.  No calendar validation is
//! performed: value plausibility is out of scope for this layer.

use vstd::prelude::*;
use crate::json::{pad2, pad4, push_char, push_pad2, push_pad4};

verus! {

/// A UTC timestamp with second resolution, as plain calendar fields.
#[derive(Clone, Copy, PartialEq, Eq, Structural, Debug)]
pub struct DateUtc {
    pub year: u16,
    pub month: u8,
    pub day: u8,
    pub hour: u8,
    pub minute: u8,
    pub second: u8,
}

/// The wire rendering of a timestamp: `YYYY-MM-DDTHH:MM:SSZ`, each field
/// zero-padded.
pub open spec fn date_chars(d: DateUtc) -> Seq<char> {
    pad4(d.year as nat) + seq!['-'] + pad2(d.month as nat) + seq!['-'] + pad2(d.day as nat) + seq![
        'T',
    ] + pad2(d.hour as nat) + seq![':'] + pad2(d.minute as nat) + seq![':'] + pad2(d.second as nat)
        + seq!['Z']
}

/// The quoted JSON rendering of an optional timestamp field: nothing when
/// absent, the label and the quoted timestamp when present.
pub open spec fn opt_date_field(label: Seq<char>, v: Option<DateUtc>) -> Seq<char> {
    match v {
        Option::Some(d) => label + seq!['"'] + date_chars(d) + seq!['"'],
        Option::None => Seq::empty(),
    }
}

/// Appends the quoted JSON rendering of the timestamp `d`.
#[verifier::rlimit(50)]
pub(crate) fn push_date(out: &mut Vec<char>, d: DateUtc)
    ensures
        final(out)@ == old(out)@ + seq!['"'] + date_chars(d) + seq!['"'],
{
    push_char(out, '"');
    push_pad4(out, d.year as u64);
    push_char(out, '-');
    push_pad2(out, d.month as u64);
    proof {
        assert(out@ == old(out)@ + seq!['"'] + pad4(d.year as nat) + seq!['-'] + pad2(
            d.month as nat,
        ));
    }
    push_char(out, '-');
    push_pad2(out, d.day as u64);
    push_char(out, 'T');
    push_pad2(out, d.hour as u64);
    proof {
        assert(out@ == old(out)@ + seq!['"'] + pad4(d.year as nat) + seq!['-'] + pad2(
            d.month as nat,
        ) + seq!['-'] + pad2(d.day as nat) + seq!['T'] + pad2(d.hour as nat));
    }
    push_char(out, ':');
    push_pad2(out, d.minute as u64);
    push_char(out, ':');
    push_pad2(out, d.second as u64);
    push_char(out, 'Z');
    proof {
        assert(out@ == old(out)@ + seq!['"'] + pad4(d.year as nat) + seq!['-'] + pad2(
            d.month as nat,
        ) + seq!['-'] + pad2(d.day as nat) + seq!['T'] + pad2(d.hour as nat) + seq![':'] + pad2(
            d.minute as nat,
        ) + seq![':'] + pad2(d.second as nat) + seq!['Z']);
    }
    push_char(out, '"');
    proof {
        broadcast use crate::json::lemma_concat_assoc;

        assert(out@ =~= old(out)@ + seq!['"'] + date_chars(d) + seq!['"']);
    }
}

/// Appends an optional timestamp field: nothing when absent, the label
/// and the quoted timestamp when present.
pub(crate) fn push_opt_date(out: &mut Vec<char>, label: &str, v: &Option<DateUtc>)
    ensures
        final(out)@ == old(out)@ + opt_date_field(label@, *v),
{
    match v {
        Option::Some(d) => {
            crate::json::push_str_chars(out, label);
            push_date(out, *d);
            proof {
                assert(out@ =~= old(out)@ + opt_date_field(label@, Option::Some(*d)));
            }
        },
        Option::None => {
            proof {
                assert(out@ =~= old(out)@ + opt_date_field(label@, Option::None));
            }
        },
    }
}

} // verus!
