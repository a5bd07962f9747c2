//! Introduction codes: the short text a sender reads out and a receiver types in.

use vstd::prelude::*;
use vstd::utf8::*;

verus! {

/// Why a text is not an introduction code.
#[derive(Clone, Copy, Debug, PartialEq, Eq, Structural)]
pub enum CodeError {
    /// The text is empty.
    Empty,
    /// The text holds no `-` between nameplate and secret.
    SeparatorMissing,
    /// The part before the first `-` is not a positive decimal number.
    Nameplate,
    /// The part after the first `-` has only `bytes` bytes, fewer than
    /// `MIN_SECRET_BYTES`.
    SecretTooShort { bytes: usize },
    /// The code parser refused the text for a reason that this library does
    /// not know. The parser as it is has no such reason.
    Unrecognized,
}

/// The least number of UTF-8 bytes a secret must have.
pub const MIN_SECRET_BYTES: usize = 4;

/// `i` is where the first `-` of `s` stands.
pub open spec fn separator_at(s: Seq<char>, i: int) -> bool {
    &&& 0 <= i < s.len()
    &&& s[i] == '-'
    &&& forall|j: int| 0 <= j < i ==> s[j] != '-'
}

/// Every character of `n` is an ASCII digit.
pub open spec fn all_digits(n: Seq<char>) -> bool {
    forall|i: int| 0 <= i < n.len() ==> '0' <= #[trigger] n[i] <= '9'
}

/// `n` is one or more `0` and nothing else.
pub open spec fn all_zeros(n: Seq<char>) -> bool {
    n.len() > 0 && forall|i: int| 0 <= i < n.len() ==> #[trigger] n[i] == '0'
}

/// What the mailbox protocol's code parser says of a text: `None` where it
/// accepts, else the reason. The secret is judged before the nameplate.
pub open spec fn wire_fault(s: Seq<char>) -> Option<CodeError> {
    if s.len() == 0 {
        Some(CodeError::Empty)
    } else if !s.contains('-') {
        Some(CodeError::SeparatorMissing)
    } else {
        let i = choose|i: int| separator_at(s, i);
        let nameplate = s.subrange(0, i);
        let secret = s.subrange(i + 1, s.len() as int);
        if encode_utf8(secret).len() < MIN_SECRET_BYTES {
            Some(CodeError::SecretTooShort { bytes: encode_utf8(secret).len() as usize })
        } else if !all_digits(nameplate) || all_zeros(nameplate) {
            Some(CodeError::Nameplate)
        } else {
            None
        }
    }
}

/// Runs `magic_wormhole::Code::from_str` on `text`. The parser splits at the
/// first `-`, wants at least four bytes behind it (and reports how many there
/// are where they are fewer), and before it only ASCII digits that do not
/// spell zero; an accepted code prints as the text it was read from. It
/// knows no other reason to refuse a text (its test of a secret's strength is
/// a feature that is switched off), so the last arm is never taken.
#[verifier::external_body]
fn wire_parse(text: &str) -> (r: Result<String, CodeError>)
    ensures
        match r {
            Ok(t) => wire_fault(text@) is None && t@ == text@,
            Err(e) => wire_fault(text@) == Some(e),
        },
{
    match text.parse::<magic_wormhole::Code>() {
        Ok(code) => Ok(code.to_string()),
        Err(magic_wormhole::ParseCodeError::Empty) => Err(CodeError::Empty),
        Err(magic_wormhole::ParseCodeError::SeparatorMissing) => Err(CodeError::SeparatorMissing),
        Err(magic_wormhole::ParseCodeError::Nameplate(_)) => Err(CodeError::Nameplate),
        Err(magic_wormhole::ParseCodeError::Password(
            magic_wormhole::ParsePasswordError::TooShort { value, .. },
        )) => Err(CodeError::SecretTooShort { bytes: value }),
        Err(_) => Err(CodeError::Unrecognized),
    }
}

/// The nameplate of a code: what stands before its first `-`.
pub open spec fn nameplate_of(s: Seq<char>) -> Seq<char> {
    s.subrange(0, choose|i: int| separator_at(s, i))
}

/// The secret of a code: what stands behind its first `-`.
pub open spec fn secret_of(s: Seq<char>) -> Seq<char> {
    s.subrange((choose|i: int| separator_at(s, i)) + 1, s.len() as int)
}

/// Why `s` is not an introduction code, or `None` where it is one: the
/// parser's verdict, and beyond it a nameplate must not be empty.
pub open spec fn code_fault(s: Seq<char>) -> Option<CodeError> {
    match wire_fault(s) {
        Some(e) => Some(e),
        None => if nameplate_of(s).len() == 0 {
            Some(CodeError::Nameplate)
        } else {
            None
        },
    }
}

/// `s` is an introduction code: a positive decimal nameplate, a `-`, and a
/// secret of at least `MIN_SECRET_BYTES` bytes.
pub open spec fn is_code(s: Seq<char>) -> bool {
    code_fault(s) is None
}

/// At most one position is the first `-`.
pub proof fn lemma_separator_unique(s: Seq<char>, i: int, j: int)
    requires
        separator_at(s, i),
        separator_at(s, j),
    ensures
        i == j,
{
}

/// An introduction code that has passed the parser.
pub struct IntroductionCode {
    text: String,
    nameplate: String,
    secret: String,
}

impl View for IntroductionCode {
    type V = Seq<char>;

    closed spec fn view(&self) -> Seq<char> {
        self.text@
    }
}

impl IntroductionCode {
    #[verifier::type_invariant]
    pub closed spec fn wf(&self) -> bool {
        &&& is_code(self.text@)
        &&& self.nameplate@ == nameplate_of(self.text@)
        &&& self.secret@ == secret_of(self.text@)
    }

    /// Reads an introduction code from what a user typed.
    pub fn parse(text: &str) -> (r: Result<IntroductionCode, CodeError>)
        ensures
            match r {
                Ok(code) => is_code(text@) && code@ == text@ && code.wf(),
                Err(e) => code_fault(text@) == Some(e),
            },
    {
        let accepted = match wire_parse(text) {
            Ok(t) => t,
            Err(e) => { return Err(e); },
        };
        let len: usize = text.unicode_len();
        let mut at: usize = 0;
        while at < len && text.get_char(at) != '-'
            invariant
                at <= len,
                len == text@.len(),
                forall|j: int| 0 <= j < at ==> text@[j] != '-',
            decreases len - at,
        {
            at = at + 1;
        }
        proof {
            let i = choose|i: int| separator_at(text@, i);
            assert(text@.contains('-'));
            let k = choose|k: int| 0 <= k < text@.len() && text@[k] == '-';
            assert(at < len);
            assert(separator_at(text@, at as int));
            lemma_separator_unique(text@, i, at as int);
        }
        if at == 0 {
            return Err(CodeError::Nameplate);
        }
        let nameplate = String::from_str(text.substring_char(0, at));
        let secret = String::from_str(text.substring_char(at + 1, len));
        Ok(IntroductionCode { text: accepted, nameplate, secret })
    }

    /// The whole code, as it is read out.
    pub fn as_str(&self) -> (s: &str)
        ensures
            s@ == self@,
    {
        self.text.as_str()
    }

    /// The number that names the mailbox.
    pub fn nameplate(&self) -> (s: &str)
        ensures
            s@ == nameplate_of(self@),
    {
        proof {
            use_type_invariant(self);
        }
        self.nameplate.as_str()
    }

    /// The words that only the two peers know.
    pub fn secret(&self) -> (s: &str)
        ensures
            s@ == secret_of(self@),
    {
        proof {
            use_type_invariant(self);
        }
        self.secret.as_str()
    }

    /// A second copy of the code.
    pub fn duplicate(&self) -> (r: IntroductionCode)
        ensures
            r@ == self@,
    {
        proof {
            use_type_invariant(self);
        }
        IntroductionCode {
            text: self.text.clone(),
            nameplate: self.nameplate.clone(),
            secret: self.secret.clone(),
        }
    }
}

} // verus!
