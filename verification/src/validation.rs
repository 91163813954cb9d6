//! The validation engine: composable, stateless string rules and the
//! validators that run an ordered list of them against one value, collecting
//! every failing message instead of stopping at the first.

use vstd::prelude::*;
use vstd::string::StrSliceExecFns;
use vstd::string::StringExecFns;
use crate::strutil::{spec_dec, dec_string, push_char, str_contains_char, char_from_u32};

verus! {

/// The failure report of one validator run: every message of every rule that
/// rejected the value, in rule order. It is only ever built non-empty.
#[derive(Debug)]
pub struct ValidationError {
    pub messages: Vec<String>,
}

/// One atomic, stateless rule over a string. `check_spec` is the rule's
/// meaning: `None` when the value passes, the exact failure message otherwise;
/// `validate` must return precisely that.
pub trait StringCriteria: Sized {
    spec fn check_spec(&self, value: Seq<char>) -> Option<Seq<char>>;

    fn validate(&self, value: &str) -> (r: Result<(), String>)
        ensures
            match r {
                Ok(()) => self.check_spec(value@) is None,
                Err(m) => self.check_spec(value@) == Some(m@),
            },
    ;
}

/// A validator aggregating the messages of every failing rule for one value.
/// `messages_spec` lists them in rule order; an `Err` carries exactly that
/// list and is returned if and only if the list is non-empty.
pub trait Validator: Sized {
    spec fn messages_spec(&self, value: Seq<char>) -> Seq<Seq<char>>;

    fn validate(&self, value: &str) -> (r: Result<(), ValidationError>)
        ensures
            match r {
                Ok(()) => self.messages_spec(value@).len() == 0,
                Err(e) => {
                    &&& e.messages.deep_view() == self.messages_spec(value@)
                    &&& e.messages@.len() > 0
                },
            },
    ;
}

/// The message of a violated minimum bound, citing the bound and the count.
pub open spec fn min_length_message(min: nat, len: nat) -> Seq<char> {
    "Expected mininum "@ + spec_dec(min) + " characters but got only "@ + spec_dec(len)
        + "."@
}

/// The message of a violated maximum bound, citing the bound and the count.
pub open spec fn max_length_message(max: nat, len: nat) -> Seq<char> {
    "Expected maximum "@ + spec_dec(max) + " characters but got "@ + spec_dec(len) + "."@
}

fn build_min_message(min: usize, len: usize) -> (r: String)
    ensures
        r@ == min_length_message(min as nat, len as nat),
{
    let mut s = String::from_str("Expected mininum ");
    let d_min = dec_string(min);
    s.append(d_min.as_str());
    s.append(" characters but got only ");
    let d_len = dec_string(len);
    s.append(d_len.as_str());
    s.append(".");
    s
}

fn build_max_message(max: usize, len: usize) -> (r: String)
    ensures
        r@ == max_length_message(max as nat, len as nat),
{
    let mut s = String::from_str("Expected maximum ");
    let d_max = dec_string(max);
    s.append(d_max.as_str());
    s.append(" characters but got ");
    let d_len = dec_string(len);
    s.append(d_len.as_str());
    s.append(".");
    s
}

/// Bounds on the number of characters of a value, counted in Unicode scalar
/// values, not bytes. Either bound may be absent.
pub struct StringLengthCriteria {
    pub min: Option<usize>,
    pub max: Option<usize>,
}

impl StringLengthCriteria {
    pub fn new(min: usize, max: usize) -> (r: Self)
        ensures
            r == (StringLengthCriteria { min: Some(min), max: Some(max) }),
    {
        Self { min: Some(min), max: Some(max) }
    }

    pub fn min(min: usize) -> (r: Self)
        ensures
            r == (StringLengthCriteria { min: Some(min), max: None }),
    {
        Self { min: Some(min), max: None }
    }

    pub fn max(max: usize) -> (r: Self)
        ensures
            r == (StringLengthCriteria { min: None, max: Some(max) }),
    {
        Self { min: None, max: Some(max) }
    }
}

impl StringCriteria for StringLengthCriteria {
    open spec fn check_spec(&self, value: Seq<char>) -> Option<Seq<char>> {
        match self.min {
            Some(m) if value.len() < m => Some(min_length_message(m as nat, value.len())),
            _ => match self.max {
                Some(m) if value.len() > m => Some(max_length_message(m as nat, value.len())),
                _ => None,
            },
        }
    }

    fn validate(&self, value: &str) -> (r: Result<(), String>) {
        let len: usize = value.unicode_len();
        if let Some(m) = self.min {
            if len < m {
                return Err(build_min_message(m, len));
            }
        }
        if let Some(m) = self.max {
            if len > m {
                return Err(build_max_message(m, len));
            }
        }
        Ok(())
    }
}

/// The characters of the inclusive scalar-value range `lo..=hi`, in order,
/// skipping the numbers that are no Unicode scalar values.
pub open spec fn chars_between(lo: int, hi: int) -> Seq<char>
    decreases hi - lo + 1,
{
    if lo > hi {
        seq![]
    } else {
        (if vstd::utf8::is_scalar(lo as u32) {
            seq![(lo as u32) as char]
        } else {
            seq![]
        }) + chars_between(lo + 1, hi)
    }
}

/// Whether the value contains at least one character of the group.
pub open spec fn group_ok(chars: Seq<char>, value: Seq<char>) -> bool {
    exists|i: int| 0 <= i < chars.len() && value.contains(chars[i])
}

/// The group characters separated by commas: the list a failure message shows.
pub open spec fn intersperse_commas(chars: Seq<char>) -> Seq<char>
    decreases chars.len(),
{
    if chars.len() == 0 {
        seq![]
    } else if chars.len() == 1 {
        seq![chars[0]]
    } else {
        intersperse_commas(chars.drop_last()) + seq![',', chars.last()]
    }
}

/// The message of a missing character group, listing the expected set.
pub open spec fn group_message(chars: Seq<char>, value: Seq<char>) -> Seq<char> {
    "Expected one of `"@ + intersperse_commas(chars) + "` but got `"@ + value + "`."@
}

fn build_group_message(chars: &Vec<char>, value: &str) -> (r: String)
    ensures
        r@ == group_message(chars@, value@),
{
    let mut s = String::from_str("Expected one of `");
    let n: usize = chars.len();
    let mut i: usize = 0;
    while i < n
        invariant
            n == chars@.len(),
            i <= n,
            s@ == "Expected one of `"@ + intersperse_commas(chars@.take(i as int)),
        decreases n - i,
    {
        if i > 0 {
            push_char(&mut s, ',');
        }
        push_char(&mut s, chars[i]);
        proof {
            assert(chars@.take(i + 1 as int).drop_last() =~= chars@.take(i as int));
            assert(chars@.take(i + 1 as int).last() == chars@[i as int]);
            assert(s@ =~= "Expected one of `"@ + intersperse_commas(chars@.take(i + 1 as int)));
        }
        i = i + 1;
    }
    proof {
        assert(chars@.take(n as int) =~= chars@);
    }
    s.append("` but got `");
    s.append(value);
    s.append("`.");
    s
}

/// Requires at least one character out of a fixed group to be present.
pub struct RequiredCharacterGroupCriteria {
    pub chars: Vec<char>,
}

impl RequiredCharacterGroupCriteria {
    pub fn new(chars: Vec<char>) -> (r: Self)
        ensures
            r.chars == chars,
    {
        Self { chars }
    }

    /// The group of every character in the inclusive range `min..=max`.
    pub fn range(min: char, max: char) -> (r: Self)
        ensures
            r.chars@ == chars_between(min as int, max as int),
    {
        let lo: u32 = min as u32;
        let hi: u32 = max as u32;
        let mut v: Vec<char> = Vec::new();
        let mut u: u64 = lo as u64;
        while u <= hi as u64
            invariant
                lo as u64 <= u,
                chars_between(lo as int, hi as int) == v@ + chars_between(u as int, hi as int),
            decreases hi as u64 + 1 - u,
        {
            match char_from_u32(u as u32) {
                Some(c) => {
                    proof {
                        vstd::utf8::char_u32_cast(c, u as u32);
                        assert(chars_between(u as int, hi as int) =~= seq![c] + chars_between(
                            u + 1 as int,
                            hi as int,
                        ));
                    }
                    v.push(c);
                },
                None => {
                    proof {
                        assert(chars_between(u as int, hi as int) =~= chars_between(
                            u + 1 as int,
                            hi as int,
                        ));
                    }
                },
            }
            u = u + 1;
        }
        proof {
            assert(chars_between(u as int, hi as int) =~= Seq::<char>::empty());
            assert(v@ =~= chars_between(lo as int, hi as int));
            assert(lo as int == min as int && hi as int == max as int);
        }
        Self { chars: v }
    }
}

impl StringCriteria for RequiredCharacterGroupCriteria {
    open spec fn check_spec(&self, value: Seq<char>) -> Option<Seq<char>> {
        if group_ok(self.chars@, value) {
            None
        } else {
            Some(group_message(self.chars@, value))
        }
    }

    fn validate(&self, value: &str) -> (r: Result<(), String>) {
        let n: usize = self.chars.len();
        let mut i: usize = 0;
        while i < n
            invariant
                n == self.chars@.len(),
                i <= n,
                forall|j: int| 0 <= j < i ==> !value@.contains(self.chars@[j]),
            decreases n - i,
        {
            if str_contains_char(value, self.chars[i]) {
                return Ok(());
            }
            i = i + 1;
        }
        Err(build_group_message(&self.chars, value))
    }
}

#[verifier::external_type_specification]
#[verifier::external_body]
pub struct ExRegex(regex::Regex);

#[verifier::external_type_specification]
#[verifier::external_body]
pub struct ExRegexError(regex::Error);

/// Whether `regex::Regex::new` accepts the pattern: a function of the pattern
/// text alone.
pub uninterp spec fn regex_compiles(pattern: Seq<char>) -> bool;

/// Whether the pattern, freshly compiled, finds a match in the value: a
/// function of the pattern text and the value alone.
pub uninterp spec fn regex_accepts(pattern: Seq<char>, value: Seq<char>) -> bool;

/// Relies on `regex::Regex::new`: compilation succeeds or fails on the
/// pattern text alone.
#[verifier::external_body]
fn compile_pattern(pattern: &str) -> (r: Result<regex::Regex, regex::Error>)
    ensures
        r is Ok <==> regex_compiles(pattern@),
{
    regex::Regex::new(pattern)
}

/// Relies on `regex::Regex::new` and `regex::Regex::is_match`, made as one
/// unit so that the outcome is a function of the pattern text and the value
/// alone: `None` when the pattern does not compile, otherwise whether the
/// fresh compilation matches somewhere in the value.
#[verifier::external_body]
fn match_pattern(pattern: &str, value: &str) -> (r: Option<bool>)
    ensures
        r is Some <==> regex_compiles(pattern@),
        r matches Some(b) ==> b == regex_accepts(pattern@, value@),
{
    match regex::Regex::new(pattern) {
        Ok(re) => Some(re.is_match(value)),
        Err(_) => None,
    }
}

/// The message of a value that the pattern does not match.
pub open spec fn no_match_message(value: Seq<char>) -> Seq<char> {
    "`"@ + value + "` does not match expected regex."@
}

fn build_no_match_message(value: &str) -> (r: String)
    ensures
        r@ == no_match_message(value@),
{
    let mut s = String::from_str("`");
    s.append(value);
    s.append("` does not match expected regex.");
    s
}

/// Accepts a value when a fixed pattern matches it. Holds the pattern text;
/// every check compiles it afresh, so that what a check returns stays a
/// function of that text.
pub struct RegexValidator {
    pattern: String,
}

impl RegexValidator {
    #[verifier::type_invariant]
    spec fn type_inv(&self) -> bool {
        regex_compiles(self.pattern@)
    }

    /// The pattern text this rule was built from.
    pub closed spec fn spec_pattern(&self) -> Seq<char> {
        self.pattern@
    }

    pub fn new(pattern: &str) -> (r: Result<Self, regex::Error>)
        ensures
            r is Ok <==> regex_compiles(pattern@),
            r matches Ok(v) ==> v.spec_pattern() == pattern@,
    {
        match compile_pattern(pattern) {
            Ok(_) => Ok(Self { pattern: pattern.to_owned() }),
            Err(e) => Err(e),
        }
    }
}

impl StringCriteria for RegexValidator {
    open spec fn check_spec(&self, value: Seq<char>) -> Option<Seq<char>> {
        if regex_accepts(self.spec_pattern(), value) {
            None
        } else {
            Some(no_match_message(value))
        }
    }

    fn validate(&self, value: &str) -> (r: Result<(), String>) {
        proof {
            use_type_invariant(self);
        }
        match match_pattern(self.pattern.as_str(), value) {
            Some(true) => Ok(()),
            Some(false) => Err(build_no_match_message(value)),
            None => {
                // the type invariant says the stored pattern compiles
                proof {
                    assert(false);
                }
                Ok(())
            },
        }
    }
}

/// One stored rule of a `StringValidator`: each built-in rule family has a
/// variant, and the rule's meaning is that of the wrapped rule.
pub enum Criteria {
    Length(StringLengthCriteria),
    Group(RequiredCharacterGroupCriteria),
    Pattern(RegexValidator),
}

impl StringCriteria for Criteria {
    open spec fn check_spec(&self, value: Seq<char>) -> Option<Seq<char>> {
        match self {
            Criteria::Length(c) => c.check_spec(value),
            Criteria::Group(c) => c.check_spec(value),
            Criteria::Pattern(c) => c.check_spec(value),
        }
    }

    fn validate(&self, value: &str) -> (r: Result<(), String>) {
        match self {
            Criteria::Length(c) => c.validate(value),
            Criteria::Group(c) => c.validate(value),
            Criteria::Pattern(c) => c.validate(value),
        }
    }
}

/// The messages of every rule in the list that rejects the value, in order.
pub open spec fn collect_messages(criteria: Seq<Criteria>, value: Seq<char>) -> Seq<Seq<char>>
    decreases criteria.len(),
{
    if criteria.len() == 0 {
        seq![]
    } else {
        collect_messages(criteria.drop_last(), value) + (match criteria.last().check_spec(value) {
            Some(m) => seq![m],
            None => seq![],
        })
    }
}

/// An ordered list of rules run together against one value.
pub struct StringValidator {
    pub criteria: Vec<Criteria>,
}

impl StringValidator {
    pub fn new() -> (r: Self)
        ensures
            r.criteria@ == Seq::<Criteria>::empty(),
    {
        Self { criteria: Vec::new() }
    }

    pub fn add_criteria(&mut self, criteria: Criteria)
        ensures
            final(self).criteria@ == old(self).criteria@.push(criteria),
    {
        self.criteria.push(criteria);
    }
}

impl Validator for StringValidator {
    open spec fn messages_spec(&self, value: Seq<char>) -> Seq<Seq<char>> {
        collect_messages(self.criteria@, value)
    }

    fn validate(&self, value: &str) -> (r: Result<(), ValidationError>) {
        let mut messages: Vec<String> = Vec::new();
        let n: usize = self.criteria.len();
        let mut i: usize = 0;
        while i < n
            invariant
                n == self.criteria@.len(),
                i <= n,
                messages.deep_view() == collect_messages(self.criteria@.take(i as int), value@),
            decreases n - i,
        {
            let ghost prefix = messages.deep_view();
            match self.criteria[i].validate(value) {
                Ok(()) => {},
                Err(m) => {
                    messages.push(m);
                    proof {
                        assert(messages.deep_view() =~= prefix.push(m@));
                    }
                },
            }
            proof {
                assert(self.criteria@.take(i + 1 as int).drop_last() =~= self.criteria@.take(
                    i as int,
                ));
                assert(self.criteria@.take(i + 1 as int).last() == self.criteria@[i as int]);
            }
            i = i + 1;
        }
        proof {
            assert(self.criteria@.take(n as int) =~= self.criteria@);
        }
        if messages.len() == 0 {
            Ok(())
        } else {
            Err(ValidationError { messages })
        }
    }
}

/// The pattern an email address must match.
pub open spec fn email_pattern() -> Seq<char> {
    "^[^@\\s]+@[^@\\s]+\\.[^@\\s]+$"@
}

/// Whether a value passes the email check.
pub open spec fn email_matches(value: Seq<char>) -> bool {
    regex_compiles(email_pattern()) && regex_accepts(email_pattern(), value)
}

/// Accepts a value when the email pattern matches it. Should the pattern ever
/// fail to compile, the value is reported as no match rather than aborting.
pub struct EmailValidator;

impl Validator for EmailValidator {
    open spec fn messages_spec(&self, value: Seq<char>) -> Seq<Seq<char>> {
        if email_matches(value) {
            seq![]
        } else {
            seq![no_match_message(value)]
        }
    }

    fn validate(&self, value: &str) -> (r: Result<(), ValidationError>) {
        match RegexValidator::new("^[^@\\s]+@[^@\\s]+\\.[^@\\s]+$") {
            Ok(rv) => match rv.validate(value) {
                Ok(()) => Ok(()),
                Err(m) => {
                    let e = ValidationError { messages: vec![m] };
                    proof {
                        assert(e.messages.deep_view() =~= seq![m@]);
                    }
                    Err(e)
                },
            },
            Err(_) => {
                let m = build_no_match_message(value);
                let e = ValidationError { messages: vec![m] };
                proof {
                    assert(e.messages.deep_view() =~= seq![m@]);
                }
                Err(e)
            },
        }
    }
}

/// The character groups a password must draw from, besides its length:
/// a lower-case letter, an upper-case letter, a digit, and one of these
/// symbols.
pub open spec fn password_symbols() -> Seq<char> {
    seq!['!', '?', '.', '-', '_', '#', '$', '&']
}

/// Every failure message of the password rules, in rule order: minimum length
/// of eight characters, then one required character out of each group.
pub open spec fn password_messages(value: Seq<char>) -> Seq<Seq<char>> {
    (if value.len() < 8 {
        seq![min_length_message(8, value.len())]
    } else {
        seq![]
    }) + group_check_messages(chars_between('a' as int, 'z' as int), value)
        + group_check_messages(chars_between('A' as int, 'Z' as int), value)
        + group_check_messages(chars_between('0' as int, '9' as int), value)
        + group_check_messages(password_symbols(), value)
}

/// The messages of one required-group rule: none, or the one group message.
pub open spec fn group_check_messages(chars: Seq<char>, value: Seq<char>) -> Seq<Seq<char>> {
    if group_ok(chars, value) {
        seq![]
    } else {
        seq![group_message(chars, value)]
    }
}

/// Appending a rule appends its messages: the unrolling step used to relate a
/// built rule list to the fixed password rule set.
pub proof fn lemma_collect_push(criteria: Seq<Criteria>, c: Criteria, value: Seq<char>)
    ensures
        collect_messages(criteria.push(c), value) == collect_messages(criteria, value) + (
        match c.check_spec(value) {
            Some(m) => seq![m],
            None => seq![],
        }),
{
    assert(criteria.push(c).drop_last() =~= criteria);
    assert(criteria.push(c).last() == c);
}

/// The password rule set used across the system, run as one composed
/// validator so that a weak password reports every missing category at once.
pub struct PasswordValidator;

impl Validator for PasswordValidator {
    open spec fn messages_spec(&self, value: Seq<char>) -> Seq<Seq<char>> {
        password_messages(value)
    }

    fn validate(&self, value: &str) -> (r: Result<(), ValidationError>) {
        let mut validator = StringValidator::new();
        let length_rule = StringLengthCriteria::min(8);
        let lower_rule = RequiredCharacterGroupCriteria::range('a', 'z');
        let upper_rule = RequiredCharacterGroupCriteria::range('A', 'Z');
        let digit_rule = RequiredCharacterGroupCriteria::range('0', '9');
        let symbol_rule = RequiredCharacterGroupCriteria::new(
            vec!['!', '?', '.', '-', '_', '#', '$', '&'],
        );
        let ghost c0 = Criteria::Length(length_rule);
        let ghost c1 = Criteria::Group(lower_rule);
        let ghost c2 = Criteria::Group(upper_rule);
        let ghost c3 = Criteria::Group(digit_rule);
        let ghost c4 = Criteria::Group(symbol_rule);
        validator.add_criteria(Criteria::Length(length_rule));
        validator.add_criteria(Criteria::Group(lower_rule));
        validator.add_criteria(Criteria::Group(upper_rule));
        validator.add_criteria(Criteria::Group(digit_rule));
        validator.add_criteria(Criteria::Group(symbol_rule));
        let r = validator.validate(value);
        proof {
            let v = value@;
            let p0 = Seq::<Criteria>::empty();
            let p1 = p0.push(c0);
            let p2 = p1.push(c1);
            let p3 = p2.push(c2);
            let p4 = p3.push(c3);
            let p5 = p4.push(c4);
            assert(validator.criteria@ == p5);
            assert(collect_messages(p0, v) =~= Seq::<Seq<char>>::empty());
            lemma_collect_push(p0, c0, v);
            lemma_collect_push(p1, c1, v);
            lemma_collect_push(p2, c2, v);
            lemma_collect_push(p3, c3, v);
            lemma_collect_push(p4, c4, v);
            assert(symbol_rule.chars@ == password_symbols());
            assert(collect_messages(p5, v) =~= password_messages(v));
        }
        r
    }
}

} // verus!
