//! Sign-up and sign-in requests, and the rules that a sign-up must meet.

use crate::outside::{pattern_matches, regex_verdict};
use crate::text::{
    byte_len, byte_length, char_is_alphanumeric, char_is_digit, char_is_lower, char_is_upper,
    chars_of, is_alphanumeric, is_digit, is_lower, is_upper, string_of,
};
use vstd::prelude::*;

verus! {

#[derive(Debug, PartialEq, Eq)]
pub struct RegisterRequest {
    pub username: String,
    pub password: String,
    pub email: String,
}

#[derive(Debug, PartialEq, Eq)]
pub struct LoginRequest {
    pub identifier: LoginIdentifier,
    pub password: String,
}

/// The name under which a user signs in.
#[derive(Debug, PartialEq, Eq)]
pub enum LoginIdentifier {
    Username(String),
    Email(String),
}

/// How a second factor is delivered.
#[derive(Debug, Clone, Copy, PartialEq, Eq, Structural)]
pub enum TwoFaType {
    Password,
    Email,
}

impl TwoFaType {
    pub open spec fn name(self) -> Seq<char> {
        match self {
            TwoFaType::Password => "password"@,
            TwoFaType::Email => "email"@,
        }
    }

    pub fn as_str(&self) -> (r: &'static str)
        ensures
            r@ == self.name(),
    {
        match self {
            TwoFaType::Password => "password",
            TwoFaType::Email => "email",
        }
    }
}

/// A type that is read from the text of a field.
pub trait CustomDeserializable: Sized {
    fn from_str(input: &str) -> Result<Self, String>;
}

// ---------------------------------------------------------------------------
// The rules
// ---------------------------------------------------------------------------

pub open spec fn is_username_char(c: char) -> bool {
    is_alphanumeric(c) || c == '-' || c == '_'
}

pub open spec fn is_email_char(c: char) -> bool {
    is_alphanumeric(c) || c == '.' || c == '-'
}

pub open spec fn is_special(c: char) -> bool {
    c == '!' || c == '@' || c == '#' || c == '$' || c == '%' || c == '^' || c == '&' || c == '*'
        || c == '(' || c == ')' || c == '-' || c == '=' || c == '+' || c == '?'
}

/// Some character of the text is of the class.
pub open spec fn some_char(s: Seq<char>, class: spec_fn(char) -> bool) -> bool {
    exists|i: int| 0 <= i < s.len() && class(#[trigger] s[i])
}

/// Every character of the text is of the class.
pub open spec fn every_char(s: Seq<char>, class: spec_fn(char) -> bool) -> bool {
    forall|i: int| 0 <= i < s.len() ==> class(#[trigger] s[i])
}

/// The first place at which `c` stands in the text, or the length of the
/// text where it stands nowhere.
pub open spec fn index_of(s: Seq<char>, c: char) -> int
    decreases s.len(),
{
    if s.len() == 0 {
        0
    } else if s[0] == c {
        0
    } else {
        1 + index_of(s.skip(1), c)
    }
}

pub proof fn lemma_index_of(s: Seq<char>, c: char, i: int)
    requires
        0 <= i <= s.len(),
        forall|j: int| 0 <= j < i ==> s[j] != c,
        i == s.len() || s[i] == c,
    ensures
        index_of(s, c) == i,
    decreases s.len(),
{
    if s.len() > 0 && i > 0 {
        assert(s[0] != c);
        assert forall|j: int| 0 <= j < i - 1 implies s.skip(1)[j] != c by {
            assert(s.skip(1)[j] == s[j + 1]);
        }
        lemma_index_of(s.skip(1), c, i - 1);
    }
}

/// What is wrong with a user name, if anything.
pub open spec fn username_fault(username: Seq<char>) -> Option<Seq<char>> {
    if byte_len(username) < 3 {
        Some("Username must be at least 3 characters long."@)
    } else if byte_len(username) > 30 {
        Some("Username cant be longer than 30 characters"@)
    } else if !every_char(username, |c: char| is_username_char(c)) {
        Some("Only the following characters are allowed: a-z, A-Z, 0-9, _-"@)
    } else {
        None
    }
}

/// What is wrong with a password, if anything.
pub open spec fn password_fault(password: Seq<char>) -> Option<Seq<char>> {
    if byte_len(password) < 8 {
        Some("Your password must be at least 8 characters long!"@)
    } else if byte_len(password) > 64 {
        Some("your password is too long, max: 64 characters"@)
    } else if !some_char(password, |c: char| is_digit(c)) {
        Some("Password must contain at least one digit."@)
    } else if !some_char(password, |c: char| is_upper(c)) {
        Some("Password must contain at least one uppercase letter."@)
    } else if !some_char(password, |c: char| is_lower(c)) {
        Some("Password must contain at least one lowercase letter."@)
    } else if !some_char(password, |c: char| is_special(c)) {
        Some(
            "Password must contain at least one special character. Allowed special characters: !@#$%^&*()-_=+?"@,
        )
    } else {
        None
    }
}

/// What is wrong with an address, if anything. An address is a local part,
/// one `@` and a domain.
pub open spec fn email_fault(email: Seq<char>) -> Option<Seq<char>> {
    let at = index_of(email, '@');
    if at == email.len() {
        Some("email does not contain an @"@)
    } else {
        let local = email.take(at);
        let domain = email.skip(at + 1);
        if index_of(domain, '@') < domain.len() {
            Some("email does not contain an @"@)
        } else if byte_len(local) > 64 {
            Some("the part in the email before the @ is too long"@)
        } else if byte_len(domain) > 255 {
            Some("the domain part the email is too long"@)
        } else if !every_char(local, |c: char| is_email_char(c)) || !every_char(
            domain,
            |c: char| is_email_char(c),
        ) {
            Some("Email format is wrong. Only letters, digits, dots, and hyphens are allowed."@)
        } else {
            None
        }
    }
}

/// What is wrong with a sign-up, if anything: the first fault of the user
/// name, the address and the password, in this order.
pub open spec fn register_fault(username: Seq<char>, email: Seq<char>, password: Seq<char>)
    -> Option<Seq<char>> {
    match username_fault(username) {
        Some(m) => Some(m),
        None => match email_fault(email) {
            Some(m) => Some(m),
            None => password_fault(password),
        },
    }
}

/// Whether a check found no fault, or the fault that the rule names.
pub open spec fn agrees(r: Result<(), String>, fault: Option<Seq<char>>) -> bool {
    match r {
        Ok(()) => fault is None,
        Err(m) => fault == Some(m@),
    }
}

fn fault(message: &str) -> (r: Result<(), String>)
    ensures
        r matches Err(m) && m@ == message@,
{
    Err(String::from_str(message))
}

fn char_is_special(c: char) -> (r: bool)
    ensures
        r == is_special(c),
{
    c == '!' || c == '@' || c == '#' || c == '$' || c == '%' || c == '^' || c == '&' || c == '*'
        || c == '(' || c == ')' || c == '-' || c == '=' || c == '+' || c == '?'
}

/// Whether every character may stand in a part of an address.
fn all_email_chars(v: &Vec<char>) -> (r: bool)
    ensures
        r == every_char(v@, |c: char| is_email_char(c)),
{
    let mut i: usize = 0;
    while i < v.len()
        invariant
            i <= v.len(),
            forall|j: int| 0 <= j < i ==> is_email_char(#[trigger] v@[j]),
        decreases v.len() - i,
    {
        let c = v[i];
        if !(char_is_alphanumeric(c) || c == '.' || c == '-') {
            assert(!is_email_char(v@[i as int]));
            return false;
        }
        i += 1;
    }
    true
}

/// The first place at which `c` stands in `v` from `from` on.
fn find_char(v: &Vec<char>, from: usize, c: char) -> (r: usize)
    requires
        from <= v.len(),
    ensures
        r == from + index_of(v@.skip(from as int), c),
        from <= r <= v.len(),
{
    let mut i: usize = from;
    while i < v.len() && v[i] != c
        invariant
            from <= i <= v.len(),
            forall|j: int| from <= j < i ==> v@[j] != c,
        decreases v.len() - i,
    {
        i += 1;
    }
    proof {
        lemma_index_of(v@.skip(from as int), c, i - from);
    }
    i
}

/// The characters of `v` from `from` up to `to`.
fn slice_chars(v: &Vec<char>, from: usize, to: usize) -> (r: Vec<char>)
    requires
        from <= to <= v.len(),
    ensures
        r@ == v@.subrange(from as int, to as int),
{
    let mut out: Vec<char> = Vec::new();
    let mut i: usize = from;
    while i < to
        invariant
            from <= i <= to,
            to <= v.len(),
            out@ == v@.subrange(from as int, i as int),
        decreases to - i,
    {
        out.push(v[i]);
        assert(v@.subrange(from as int, i + 1) =~= v@.subrange(from as int, i as int).push(
            v@[i as int],
        ));
        i += 1;
    }
    out
}

impl RegisterRequest {
    /// Checks the user name, then the address, then the password, and
    /// names the first fault.
    pub fn validate(&self) -> (r: Result<(), String>)
        ensures
            agrees(r, register_fault(self.username@, self.email@, self.password@)),
    {
        match Self::validate_username(self.username.as_str()) {
            Err(m) => {
                return Err(m);
            },
            Ok(()) => {},
        }
        match Self::validate_email(self.email.as_str()) {
            Err(m) => {
                return Err(m);
            },
            Ok(()) => {},
        }
        Self::validate_password(self.password.as_str())
    }

    /// A user name takes 3 to 30 bytes and holds ASCII letters, digits,
    /// `-` and `_` only.
    pub fn validate_username(username: &str) -> (r: Result<(), String>)
        ensures
            agrees(r, username_fault(username@)),
    {
        let n = byte_length(username);
        if n < 3 {
            return fault("Username must be at least 3 characters long.");
        } else if n > 30 {
            return fault("Username cant be longer than 30 characters");
        }
        let v = chars_of(username);
        let mut i: usize = 0;
        while i < v.len()
            invariant
                i <= v.len(),
                v@ == username@,
                3 <= byte_len(username@) <= 30,
                forall|j: int| 0 <= j < i ==> is_username_char(#[trigger] username@[j]),
            decreases v.len() - i,
        {
            let c = v[i];
            if !(char_is_alphanumeric(c) || c == '-' || c == '_') {
                assert(!is_username_char(username@[i as int]));
                return fault("Only the following characters are allowed: a-z, A-Z, 0-9, _-");
            }
            i += 1;
        }
        Ok(())
    }

    /// A password takes 8 to 64 bytes and holds a digit, a capital, a small
    /// letter and one of the special characters.
    pub fn validate_password(password: &str) -> (r: Result<(), String>)
        ensures
            agrees(r, password_fault(password@)),
    {
        let n = byte_length(password);
        if n < 8 {
            return fault("Your password must be at least 8 characters long!");
        } else if n > 64 {
            return fault("your password is too long, max: 64 characters");
        }
        let v = chars_of(password);
        let mut has_digit = false;
        let mut has_uppercase = false;
        let mut has_lowercase = false;
        let mut has_special_char = false;
        let mut i: usize = 0;
        while i < v.len()
            invariant
                i <= v.len(),
                v@ == password@,
                has_digit == some_char(password@.take(i as int), |c: char| is_digit(c)),
                has_uppercase == some_char(password@.take(i as int), |c: char| is_upper(c)),
                has_lowercase == some_char(password@.take(i as int), |c: char| is_lower(c)),
                has_special_char == some_char(password@.take(i as int), |c: char| is_special(c)),
            decreases v.len() - i,
        {
            let c = v[i];
            let ghost before = password@.take(i as int);
            let ghost after = password@.take(i + 1);
            proof {
                assert(after[i as int] == c);
                assert forall|j: int| 0 <= j < i implies before[j] == after[j] by {}
                lemma_some_char_step(before, after, c, |c: char| is_digit(c));
                lemma_some_char_step(before, after, c, |c: char| is_upper(c));
                lemma_some_char_step(before, after, c, |c: char| is_lower(c));
                lemma_some_char_step(before, after, c, |c: char| is_special(c));
            }
            if char_is_digit(c) {
                has_digit = true;
            } else if char_is_upper(c) {
                has_uppercase = true;
            } else if char_is_lower(c) {
                has_lowercase = true;
            } else if char_is_special(c) {
                has_special_char = true;
            }
            i += 1;
        }
        assert(password@.take(v.len() as int) =~= password@);
        if !has_digit {
            return fault("Password must contain at least one digit.");
        }
        if !has_uppercase {
            return fault("Password must contain at least one uppercase letter.");
        }
        if !has_lowercase {
            return fault("Password must contain at least one lowercase letter.");
        }
        if !has_special_char {
            return fault(
                "Password must contain at least one special character. Allowed special characters: !@#$%^&*()-_=+?",
            );
        }
        Ok(())
    }

    /// An address has one `@`, at most 64 bytes before it and 255 after it,
    /// and ASCII letters, digits, `.` and `-` only on both sides.
    pub fn validate_email(email: &str) -> (r: Result<(), String>)
        ensures
            agrees(r, email_fault(email@)),
    {
        let v = chars_of(email);
        let at = find_char(&v, 0, '@');
        assert(v@.skip(0) =~= v@);
        if at == v.len() {
            return fault("email does not contain an @");
        }
        let local = slice_chars(&v, 0, at);
        let domain = slice_chars(&v, at + 1, v.len());
        proof {
            assert(local@ =~= email@.take(at as int));
            assert(domain@ =~= email@.skip(at + 1));
            assert(domain@.skip(0) =~= domain@);
        }
        let second = find_char(&domain, 0, '@');
        if second < domain.len() {
            return fault("email does not contain an @");
        }
        let local_part = string_of(&local);
        let domain_part = string_of(&domain);
        if byte_length(local_part.as_str()) > 64 {
            return fault("the part in the email before the @ is too long");
        } else if byte_length(domain_part.as_str()) > 255 {
            return fault("the domain part the email is too long");
        }
        if !all_email_chars(&local) || !all_email_chars(&domain) {
            return fault(
                "Email format is wrong. Only letters, digits, dots, and hyphens are allowed.",
            );
        }
        Ok(())
    }
}

/// A class has a member in a text with one more character where it had one
/// before or the new character is one.
pub proof fn lemma_some_char_step(
    before: Seq<char>,
    after: Seq<char>,
    c: char,
    class: spec_fn(char) -> bool,
)
    requires
        after.len() == before.len() + 1,
        after[before.len() as int] == c,
        forall|j: int| 0 <= j < before.len() ==> before[j] == after[j],
    ensures
        some_char(after, class) == (some_char(before, class) || class(c)),
{
    if some_char(before, class) {
        let i = choose|i: int| 0 <= i < before.len() && class(#[trigger] before[i]);
        assert(class(after[i]));
    }
    if class(c) {
        assert(class(after[before.len() as int]));
    }
    if some_char(after, class) {
        let i = choose|i: int| 0 <= i < after.len() && class(#[trigger] after[i]);
        if i < before.len() {
            assert(class(before[i]));
        }
    }
}

// ---------------------------------------------------------------------------
// Sign-in names
// ---------------------------------------------------------------------------

/// The pattern of an address, as a sign-in takes it.
pub open spec fn email_pattern() -> Seq<char> {
    "^[a-zA-Z0-9._%+-]+@[a-zA-Z0-9.-]+\\.[a-zA-Z]{2,}$"@
}

/// Every character of the text is an ASCII character.
pub open spec fn is_ascii_text(s: Seq<char>) -> bool {
    forall|i: int| 0 <= i < s.len() ==> (#[trigger] s[i]) as u32 <= 127
}

fn text_is_ascii(v: &Vec<char>) -> (r: bool)
    ensures
        r == is_ascii_text(v@),
{
    let mut i: usize = 0;
    while i < v.len()
        invariant
            i <= v.len(),
            forall|j: int| 0 <= j < i ==> (#[trigger] v@[j]) as u32 <= 127,
        decreases v.len() - i,
    {
        if v[i] as u32 > 127 {
            return false;
        }
        i += 1;
    }
    true
}

/// `r` is what the text of a sign-in name reads as: an address where the
/// text is in ASCII and has the form of one, a user name where it is in
/// ASCII and has not, and a refusal otherwise.
pub open spec fn reads_as(input: Seq<char>, r: Result<LoginIdentifier, String>) -> bool {
    match r {
        Ok(LoginIdentifier::Email(s)) => is_ascii_text(input) && s@ == input && regex_verdict(
            email_pattern(),
            input,
        ) == Some(true),
        Ok(LoginIdentifier::Username(s)) => is_ascii_text(input) && s@ == input && regex_verdict(
            email_pattern(),
            input,
        ) == Some(false),
        Err(m) => if is_ascii_text(input) {
            regex_verdict(email_pattern(), input) is None && m@
                == "the pattern of an address does not compile"@
        } else {
            m@ == "username is not in ascii"@
        },
    }
}

impl LoginIdentifier {
    /// The sign-in name that `input` is, once it is known whether `input`
    /// has the form of an address.
    pub fn from_verdict(input: &str, is_email: bool) -> (r: Self)
        ensures
            match r {
                LoginIdentifier::Email(s) => is_email && s@ == input@,
                LoginIdentifier::Username(s) => !is_email && s@ == input@,
            },
    {
        if is_email {
            LoginIdentifier::Email(String::from_str(input))
        } else {
            LoginIdentifier::Username(String::from_str(input))
        }
    }

    /// Reads a sign-in name: an address where `input` has the form of
    /// one, a user name otherwise. A name with a character outside ASCII is
    /// refused.
    pub fn parse(input: &str) -> (r: Result<Self, String>)
        ensures
            reads_as(input@, r),
    {
        let v = chars_of(input);
        if !text_is_ascii(&v) {
            return Err(String::from_str("username is not in ascii"));
        }
        match pattern_matches("^[a-zA-Z0-9._%+-]+@[a-zA-Z0-9.-]+\\.[a-zA-Z]{2,}$", input) {
            Ok(is_email) => Ok(Self::from_verdict(input, is_email)),
            Err(_) => Err(String::from_str("the pattern of an address does not compile")),
        }
    }
}

impl CustomDeserializable for LoginIdentifier {
    /// Reads a sign-in name, as `parse` does.
    fn from_str(input: &str) -> (r: Result<Self, String>)
        ensures
            reads_as(input@, r),
    {
        Self::parse(input)
    }
}

} // verus!
