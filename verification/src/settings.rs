//! Settings that the user keeps in the configuration file.

use reqwest::header::HeaderValue;
use vstd::prelude::*;

verus! {

/// Display settings.
#[derive(Debug)]
pub struct ConfigSettings {
    /// Width in characters at which the text of a table cell is wrapped.
    pub wrap_width: usize,
}

/// A header that the user wants sent with every request.
#[derive(Debug)]
pub struct DefaultHeaders {
    pub key: String,
    pub value: String,
}

/// Whether `c` may stand in the value of a header: a tab, or any character
/// from the space on but for the delete character.
pub open spec fn is_value_char(c: char) -> bool {
    c == '\t' || (c as int >= 32 && c as int != 127)
}

/// Whether `value` can be the value of a header: each of its characters
/// may stand in one.
pub open spec fn is_header_value(value: Seq<char>) -> bool {
    forall|i: int| 0 <= i < value.len() ==> is_value_char(#[trigger] value[i])
}

/// Calls `str::parse` for `reqwest::header::HeaderValue`, which is
/// `HeaderValue::from_str`, and says whether it gave a value. That function
/// refuses a text exactly when one of its bytes is below 32 and no tab, or
/// is 127; the bytes of a character from 128 on are all above that.
#[verifier::external_body]
fn parses_as_header_value(value: &str) -> (accepted: bool)
    ensures
        accepted == is_header_value(value@),
{
    value.parse::<HeaderValue>().is_ok()
}

/// The test that a header's value can be the value of a header.
pub open spec fn has_header_value() -> spec_fn(DefaultHeaders) -> bool {
    |header: DefaultHeaders| is_header_value(header.value@)
}

/// The headers of `headers` that can be sent, in their order: those whose
/// value can be the value of a header. The others are left out.
pub fn get_default_headers(headers: Vec<DefaultHeaders>) -> (kept: Vec<DefaultHeaders>)
    ensures
        kept@ == headers@.filter(has_header_value()),
{
    let mut kept: Vec<DefaultHeaders> = Vec::new();
    let ghost all = headers@;
    assert(all.subrange(0, 0).filter(has_header_value()) == Seq::<DefaultHeaders>::empty()) by {
        reveal(Seq::filter);
    }
    for header in it: headers
        invariant
            it.seq() == all,
            kept@ == all.subrange(0, it.index() as int).filter(has_header_value()),
    {
        proof {
            let seen = all.subrange(0, it.index() as int);
            assert(all.subrange(0, it.index() + 1) == seen.push(header));
            seen.lemma_filter_push(header, has_header_value());
        }
        if parses_as_header_value(header.value.as_str()) {
            kept.push(header);
        }
    }
    assert(all.subrange(0, all.len() as int) == all);
    kept
}

} // verus!
