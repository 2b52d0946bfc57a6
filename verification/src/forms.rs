//! Plain state of the client's modal forms: which form is showing and what
//! its text fields hold. The event loop that draws them lives outside the
//! library; the state itself is plain data with pinned defaults.

use vstd::prelude::*;
use vstd::string::StrSliceExecFns;
use crate::config::Server;

verus! {

/// An ASCII decimal digit.
pub open spec fn is_ascii_digit(c: char) -> bool {
    48 <= c as u32 <= 57
}

/// The digit's numeric value.
pub open spec fn digit_value(c: char) -> int {
    c as u32 - 48
}

/// Every character is an ASCII decimal digit.
pub open spec fn all_digits(s: Seq<char>) -> bool {
    forall|i: int| 0 <= i < s.len() ==> is_ascii_digit(#[trigger] s[i])
}

/// The number the digit string denotes, most significant digit first.
pub open spec fn digits_value(s: Seq<char>) -> int
    decreases s.len(),
{
    if s.len() == 0 {
        0
    } else {
        digits_value(s.drop_last()) * 10 + digit_value(s.last())
    }
}

/// What parsing a port field yields, as `u16` parsing does it: an optional
/// leading `+`, then at least one decimal digit, and a value that fits.
pub open spec fn parse_u16_spec(s: Seq<char>) -> Option<u16> {
    let digits = if s.len() > 0 && s[0] == '+' {
        s.drop_first()
    } else {
        s
    };
    if digits.len() == 0 || !all_digits(digits) || digits_value(digits) > u16::MAX {
        None
    } else {
        Some(digits_value(digits) as u16)
    }
}

proof fn lemma_digits_value_nonneg(s: Seq<char>)
    requires
        all_digits(s),
    ensures
        digits_value(s) >= 0,
    decreases s.len(),
{
    if s.len() > 0 {
        assert(all_digits(s.drop_last()));
        lemma_digits_value_nonneg(s.drop_last());
    }
}

/// A digit string is worth at least any of its prefixes: appending digits
/// never decreases the value.
proof fn lemma_digits_value_monotone(s: Seq<char>, k: int)
    requires
        0 <= k <= s.len(),
        all_digits(s),
    ensures
        digits_value(s.take(k)) <= digits_value(s),
    decreases s.len() - k,
{
    if k < s.len() {
        assert(s.take(k + 1).drop_last() =~= s.take(k));
        assert(all_digits(s.take(k)));
        lemma_digits_value_nonneg(s.take(k));
        assert(digits_value(s.take(k + 1)) == digits_value(s.take(k)) * 10 + digit_value(
            s.take(k + 1).last(),
        ));
        lemma_digits_value_monotone(s, k + 1);
    } else {
        assert(s.take(k) =~= s);
    }
}

/// Parses a port field exactly as `u16` parsing does: an optional leading
/// `+`, then decimal digits, rejected when empty, non-numeric or too large.
pub fn parse_port(s: &str) -> (r: Option<u16>)
    ensures
        r == parse_u16_spec(s@),
{
    let n = s.unicode_len();
    let ghost digits = if s@.len() > 0 && s@[0] == '+' {
        s@.drop_first()
    } else {
        s@
    };
    let mut start: usize = 0;
    if n > 0 && s.get_char(0) == '+' {
        start = 1;
    }
    if n == start {
        return None;
    }
    proof {
        assert(digits =~= s@.subrange(start as int, n as int));
    }
    let mut acc: u32 = 0;
    let mut i: usize = start;
    while i < n
        invariant
            start <= 1,
            start <= i <= n,
            n == s@.len(),
            start == 1 ==> s@.len() > 0 && s@[0] == '+',
            start == 0 ==> !(s@.len() > 0 && s@[0] == '+'),
            digits == s@.subrange(start as int, n as int),
            all_digits(digits.take(i - start)),
            acc == digits_value(digits.take(i - start)),
            acc <= u16::MAX,
        decreases n - i,
    {
        let c = s.get_char(i);
        let d = c as u32;
        proof {
            // the loop body sees `digits` only through the subrange
            // invariant; tie the spec's two shapes of it back to that form
            if start == 1 {
                assert(s@.drop_first() =~= s@.subrange(1, n as int));
            } else {
                assert(s@ =~= s@.subrange(0, n as int));
            }
            assert(digits[i - start] == s@[i as int]);
        }
        if d < 48 || d > 57 {
            proof {
                assert(!all_digits(digits));
            }
            return None;
        }
        let next = acc * 10 + (d - 48);
        proof {
            assert(digits.take(i - start + 1).drop_last() =~= digits.take(i - start));
            assert(digits_value(digits.take(i - start + 1)) == acc * 10 + (d - 48));
        }
        if next > 65535 {
            proof {
                if all_digits(digits) {
                    lemma_digits_value_monotone(digits, i - start + 1);
                }
            }
            return None;
        }
        acc = next;
        i = i + 1;
    }
    proof {
        assert(digits.take(i - start) =~= digits);
    }
    Some(acc as u16)
}

/// State of the add-server form.
#[derive(Clone, Debug)]
pub struct AddServerWindow {
    pub show: bool,
    pub name_field: String,
    pub ip_field: String,
    pub port_field: String,
    pub user_field: String,
    pub password_field: String,
    pub service_database_field: String,
}

impl Default for AddServerWindow {
    /// Hidden, with the customary port and service database prefilled.
    fn default() -> (w: AddServerWindow)
        ensures
            !w.show,
            w.name_field@ == Seq::<char>::empty(),
            w.ip_field@ == Seq::<char>::empty(),
            w.port_field@ == "5432"@,
            w.user_field@ == Seq::<char>::empty(),
            w.password_field@ == Seq::<char>::empty(),
            w.service_database_field@ == "postgres"@,
    {
        AddServerWindow {
            show: false,
            name_field: String::new(),
            ip_field: String::new(),
            port_field: "5432".to_string(),
            user_field: String::new(),
            password_field: String::new(),
            service_database_field: "postgres".to_string(),
        }
    }
}

/// State of the delete-server confirmation form.
#[derive(Clone, Debug)]
pub struct DeleteServerWindow {
    pub show: bool,
    pub server: Option<Server>,
}

impl Default for DeleteServerWindow {
    /// Hidden, with no server pending deletion.
    fn default() -> (w: DeleteServerWindow)
        ensures
            !w.show,
            w.server is None,
    {
        DeleteServerWindow { show: false, server: None }
    }
}

/// State of the query-response copy form.
#[derive(Clone, Debug)]
pub struct SQLResponseCopyWindow {
    pub show: bool,
    pub response: Option<String>,
}

impl Default for SQLResponseCopyWindow {
    /// Hidden, with nothing to copy.
    fn default() -> (w: SQLResponseCopyWindow)
        ensures
            !w.show,
            w.response is None,
    {
        SQLResponseCopyWindow { show: false, response: None }
    }
}

/// State of the login form.
#[derive(Clone, Debug)]
pub struct LoginWindow {
    pub show: bool,
    pub clear_storage: bool,
    pub password: String,
    pub error: Option<String>,
}

impl Default for LoginWindow {
    /// Showing (login comes first), with no clear-storage request, an empty
    /// password field and no error.
    fn default() -> (w: LoginWindow)
        ensures
            w.show,
            !w.clear_storage,
            w.password@ == Seq::<char>::empty(),
            w.error is None,
    {
        LoginWindow { show: true, clear_storage: false, password: String::new(), error: None }
    }
}

/// A deferred request the event loop carries out after drawing.
#[derive(Clone, Debug)]
pub enum Action {
    ClosePage(usize),
}

/// One reason the add-server form refuses to save.
#[derive(Clone, Copy, Debug, PartialEq, Eq, Structural)]
pub enum FormError {
    NameRequired,
    NameTooLong,
    NameNotUnique,
    IpRequired,
    IncorrectPort,
    UserRequired,
}

/// Whether some configured server already uses the alias.
pub open spec fn alias_taken(name: Seq<char>, servers: Seq<Server>) -> bool {
    exists|i: int| 0 <= i < servers.len() && (#[trigger] servers[i]).alias@ == name
}

/// The add-server form's failed checks, in the order the form reports them.
/// The name checks exclude one another; the rest are independent.
pub open spec fn add_server_errors_spec(
    name: Seq<char>,
    ip: Seq<char>,
    port: Seq<char>,
    user: Seq<char>,
    servers: Seq<Server>,
) -> Seq<FormError> {
    (if name.len() == 0 {
        seq![FormError::NameRequired]
    } else if name.len() > 32 {
        seq![FormError::NameTooLong]
    } else if alias_taken(name, servers) {
        seq![FormError::NameNotUnique]
    } else {
        Seq::empty()
    }) + (if ip.len() == 0 {
        seq![FormError::IpRequired]
    } else {
        Seq::empty()
    }) + (if parse_u16_spec(port) is None {
        seq![FormError::IncorrectPort]
    } else {
        Seq::empty()
    }) + (if user.len() == 0 {
        seq![FormError::UserRequired]
    } else {
        Seq::empty()
    })
}

/// Whether some configured server already uses the alias.
fn alias_in_use(name: &String, servers: &Vec<Server>) -> (r: bool)
    ensures
        r == alias_taken(name@, servers@),
{
    let mut i: usize = 0;
    while i < servers.len()
        invariant
            i <= servers@.len(),
            forall|j: int| 0 <= j < i as int ==> (#[trigger] servers@[j]).alias@ != name@,
        decreases servers@.len() - i,
    {
        if servers[i].alias == *name {
            return true;
        }
        i = i + 1;
    }
    false
}

/// Checks the add-server form against the configured servers: the name must
/// be present, at most 32 characters and unique, the address and user must
/// be present, and the port must parse. Saving is allowed exactly when the
/// result is empty.
pub fn validate_add_server(form: &AddServerWindow, servers: &Vec<Server>) -> (r: Vec<FormError>)
    ensures
        r@ == add_server_errors_spec(
            form.name_field@,
            form.ip_field@,
            form.port_field@,
            form.user_field@,
            servers@,
        ),
{
    let mut errors: Vec<FormError> = Vec::new();
    if form.name_field.unicode_len() == 0 {
        errors.push(FormError::NameRequired);
    } else if form.name_field.unicode_len() > 32 {
        errors.push(FormError::NameTooLong);
    } else if alias_in_use(&form.name_field, servers) {
        errors.push(FormError::NameNotUnique);
    }
    if form.ip_field.unicode_len() == 0 {
        errors.push(FormError::IpRequired);
    }
    if parse_port(form.port_field.as_str()).is_none() {
        errors.push(FormError::IncorrectPort);
    }
    if form.user_field.unicode_len() == 0 {
        errors.push(FormError::UserRequired);
    }
    proof {
        assert(errors@ =~= add_server_errors_spec(
            form.name_field@,
            form.ip_field@,
            form.port_field@,
            form.user_field@,
            servers@,
        ));
    }
    errors
}

/// Builds the server entry the form describes, parsing the port field;
/// `None` exactly when the port does not parse. The other checks are the
/// caller's to make first, through `validate_add_server`.
pub fn server_from_form(form: &AddServerWindow) -> (r: Option<Server>)
    ensures
        match r {
            Some(s) => {
                &&& s.alias@ == form.name_field@
                &&& s.ip@ == form.ip_field@
                &&& Some(s.port) == parse_u16_spec(form.port_field@)
                &&& s.user@ == form.user_field@
                &&& s.password@ == form.password_field@
                &&& s.service_database@ == form.service_database_field@
            },
            None => parse_u16_spec(form.port_field@) is None,
        },
{
    match parse_port(form.port_field.as_str()) {
        Some(port) => Some(
            Server {
                alias: form.name_field.clone(),
                ip: form.ip_field.clone(),
                port,
                user: form.user_field.clone(),
                password: form.password_field.clone(),
                service_database: form.service_database_field.clone(),
            },
        ),
        None => None,
    }
}

} // verus!
