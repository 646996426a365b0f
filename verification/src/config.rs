//! The process configuration, as plain values. Reading the environment
//! happens outside the library; the port text's parse is verified here.

use vstd::prelude::*;
use vstd::string::StrSliceExecFns;

use crate::text::{dec_value_of, is_dec_digit, lemma_dec_prefix_le};

verus! {

/// Where the process listens and which store it uses.
#[derive(Clone, Debug)]
pub struct Config {
    pub host: String,
    pub port: u16,
    pub database_url: String,
}

/// Parses the port number: a non-empty string of decimal digits whose value
/// fits a port. Anything else is rejected, as the original's startup then
/// refuses the configuration.
pub fn parse_port(s: &str) -> (r: Option<u16>)
    ensures
        match r {
            Some(v) => s@.len() > 0 && (forall|k: int|
                0 <= k < s@.len() ==> is_dec_digit(#[trigger] s@[k])) && v as int == dec_value_of(
                s@,
            ),
            None => !(s@.len() > 0 && (forall|k: int|
                0 <= k < s@.len() ==> is_dec_digit(#[trigger] s@[k])) && dec_value_of(s@) < 65536),
        },
{
    let n = s.unicode_len();
    if n == 0 {
        return None;
    }
    let mut acc: u32 = 0;
    let mut i: usize = 0;
    while i < n
        invariant
            n == s@.len(),
            0 < n,
            i <= n,
            forall|k: int| 0 <= k < i ==> is_dec_digit(#[trigger] s@[k]),
            acc as int == dec_value_of(s@.subrange(0, i as int)),
            acc < 65536,
        decreases n - i,
    {
        let c = s.get_char(i);
        let u = c as u32;
        if !(48 <= u && u <= 57) {
            return None;
        }
        let ghost prefix = s@.subrange(0, i as int);
        acc = acc * 10 + (u - 48);
        proof {
            let longer = s@.subrange(0, i + 1);
            assert(longer.drop_last() =~= prefix);
            assert(longer.last() == s@[i as int]);
        }
        if acc > 65535 {
            proof {
                if forall|k: int| 0 <= k < s@.len() ==> is_dec_digit(#[trigger] s@[k]) {
                    lemma_dec_prefix_le(s@, i + 1);
                }
            }
            return None;
        }
        i = i + 1;
    }
    proof {
        assert(s@.subrange(0, n as int) =~= s@);
    }
    Some(acc as u16)
}

} // verus!
