use vstd::prelude::*;
use vstd::string::*;

use crate::errors::ParseError;

verus! {

/// Exactly six characters, each an ASCII digit (leading zeros allowed).
pub open spec fn is_six_digits(s: Seq<char>) -> bool {
    s.len() == 6 && forall|i: int| 0 <= i < 6 ==> '0' <= #[trigger] s[i] <= '9'
}

/// Relies on `rand::Rng::gen_range` over the thread-local generator: a
/// uniformly drawn digit.
#[verifier::external_body]
fn random_digit() -> (r: usize)
    ensures
        r < 10,
{
    rand::Rng::gen_range(&mut rand::thread_rng(), 0..10usize)
}

/// A one-time two-factor code: six ASCII digits.
pub struct TwoFACode {
    code: String,
}

impl View for TwoFACode {
    type V = Seq<char>;

    closed spec fn view(&self) -> Seq<char> {
        self.code@
    }
}

impl TwoFACode {
    pub closed spec fn wf(&self) -> bool {
        is_six_digits(self.code@)
    }

    /// Accepts exactly six ASCII digits, kept unchanged.
    pub fn parse(code: &str) -> (r: Result<TwoFACode, ParseError>)
        ensures
            r is Ok <==> is_six_digits(code@),
            r matches Ok(c) ==> c@ == code@ && c.wf(),
            r matches Err(e) ==> e == ParseError::InvalidTwoFACode,
    {
        let n = code.unicode_len();
        if n != 6 {
            return Err(ParseError::InvalidTwoFACode);
        }
        let mut i: usize = 0;
        while i < 6
            invariant
                code@.len() == 6,
                0 <= i <= 6,
                forall|j: int| 0 <= j < i ==> '0' <= #[trigger] code@[j] <= '9',
            decreases 6 - i,
        {
            let c = code.get_char(i);
            if c < '0' || c > '9' {
                return Err(ParseError::InvalidTwoFACode);
            }
            i = i + 1;
        }
        Ok(TwoFACode { code: code.to_owned() })
    }

    /// A fresh code of six uniformly drawn digits.
    pub fn generate() -> (r: TwoFACode)
        ensures
            r.wf(),
            is_six_digits(r@),
    {
        let digits = "0123456789";
        proof {
            reveal_strlit("0123456789");
        }
        assert(digits.is_ascii());
        let mut code = String::new();
        let mut i: usize = 0;
        while i < 6
            invariant
                i <= 6,
                code@.len() == i,
                digits@ == "0123456789"@,
                digits.is_ascii(),
                forall|j: int| 0 <= j < i ==> '0' <= #[trigger] code@[j] <= '9',
            decreases 6 - i,
        {
            let d = random_digit();
            proof {
                reveal_strlit("0123456789");
            }
            let digit = digits.substring_ascii(d, d + 1);
            assert(digit@.len() == 1 && digit@[0] == digits@[d as int]);
            code.append(digit);
            i = i + 1;
        }
        TwoFACode { code }
    }

    /// The code text, read explicitly.
    pub fn as_ref(&self) -> (r: &str)
        ensures
            r@ == self@,
    {
        self.code.as_str()
    }
}

impl Default for TwoFACode {
    fn default() -> (r: TwoFACode)
        ensures
            r.wf(),
            is_six_digits(r@),
    {
        TwoFACode::generate()
    }
}

impl Clone for TwoFACode {
    fn clone(&self) -> (r: TwoFACode)
        ensures
            r@ == self@,
            r.wf() == self.wf(),
    {
        TwoFACode { code: self.code.clone() }
    }
}

impl PartialEq for TwoFACode {
    fn eq(&self, other: &TwoFACode) -> (r: bool) {
        self.code == other.code
    }
}

impl vstd::std_specs::cmp::PartialEqSpecImpl for TwoFACode {
    open spec fn obeys_eq_spec() -> bool {
        true
    }

    open spec fn eq_spec(&self, other: &TwoFACode) -> bool {
        self@ == other@
    }
}

} // verus!
