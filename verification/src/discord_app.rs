//! Looking up a Discord application: validating the id a user typed,
//! reading the application's name from Discord's reply, and choosing the
//! asset to use as its logo.

use vstd::prelude::*;
use crate::activity::opt_view;
use crate::json::{
    array_member_strings, is_json, json_array_member_strings, json_error, json_string_member, opt_strings,
    string_member,
};
use crate::text::{append_decimal, ascii_lower_seq, decimal, decimal_string, digit_char, eq_ignore_ascii_case, join_str, trim, trim_end, trim_start, trimmed};

verus! {

/// Whether `c` is an ASCII decimal digit.
pub open spec fn is_digit(c: char) -> bool {
    '0' <= c && c <= '9'
}

/// The value of a sequence of decimal digits.
pub open spec fn digits_value(s: Seq<char>) -> nat
    decreases s.len(),
{
    if s.len() == 0 {
        0
    } else {
        digits_value(s.drop_last()) * 10 + ((s.last() as u32) - 48) as nat
    }
}

/// The digits of a `u64` literal as `str::parse` reads them: an optional
/// leading `+`, then at least one digit.
pub open spec fn u64_digits(s: Seq<char>) -> Seq<char> {
    if s.len() > 0 && s[0] == '+' {
        s.drop_first()
    } else {
        s
    }
}

/// What `str::parse::<u64>` gives: the value of an optional `+` followed
/// by decimal digits, when it fits in 64 bits.
pub open spec fn parsed_u64(s: Seq<char>) -> Option<u64> {
    let d = u64_digits(s);
    if d.len() > 0 && (forall|i: int| 0 <= i < d.len() ==> is_digit(#[trigger] d[i])) && digits_value(
        d,
    ) <= u64::MAX {
        Some(digits_value(d) as u64)
    } else {
        None
    }
}

/// Reads a `u64` as `str::parse` does.
pub fn parse_u64(s: &str) -> (r: Option<u64>)
    ensures
        r == parsed_u64(s@),
{
    let mut v: Vec<char> = Vec::new();
    for c in it: s.chars()
        invariant
            it.seq() == s@,
            v@ == s@.take(it.index() as int),
    {
        v.push(c);
        assert(s@.take(it.index() + 1) =~= s@.take(it.index() as int).push(c));
    }
    assert(s@.take(s@.len() as int) =~= s@);
    let start: usize = if v.len() > 0 && v[0] == '+' {
        1
    } else {
        0
    };
    let ghost d = u64_digits(s@);
    assert(d =~= s@.skip(start as int));
    if start >= v.len() {
        return None;
    }
    let mut value: u64 = 0;
    let mut i: usize = start;
    while i < v.len()
        invariant
            v@ == s@,
            start <= i <= v@.len(),
            d == s@.skip(start as int),
            d == u64_digits(s@),
            forall|k: int| 0 <= k < i - start ==> is_digit(#[trigger] d[k]),
            value == digits_value(d.take(i - start)),
        decreases v@.len() - i,
    {
        let c = v[i];
        let ghost k = i - start;
        assert(d[k as int] == c);
        assert(d.take(k + 1).drop_last() =~= d.take(k as int));
        if c < '0' || c > '9' {
            assert(!is_digit(d[k as int]));
            assert(d == u64_digits(s@));
            assert(!(forall|q: int| 0 <= q < d.len() ==> is_digit(#[trigger] d[q])));
            assert(parsed_u64(s@) is None);
            return None;
        }
        let digit: u64 = (c as u64) - 48;
        assert(digits_value(d.take(k + 1)) == value * 10 + digit) by {
            assert(d.take(k + 1).last() == c);
        }
        if value > (u64::MAX - digit) / 10 {
            assert(digits_value(d.take(k + 1)) > u64::MAX) by (nonlinear_arith)
                requires
                    digits_value(d.take(k + 1)) == value * 10 + digit,
                    value > (u64::MAX - digit) / 10,
                    digit <= 9,
            ;
            proof {
                lemma_digits_value_prefix(d, k + 1);
            }
            return None;
        }
        value = value * 10 + digit;
        i = i + 1;
    }
    assert(d.take(d.len() as int) =~= d);
    Some(value)
}

/// A prefix's value never exceeds the whole's.
proof fn lemma_digits_value_prefix(d: Seq<char>, n: int)
    requires
        0 <= n <= d.len(),
    ensures
        digits_value(d.take(n)) <= digits_value(d),
    decreases d.len() - n,
{
    if n < d.len() {
        lemma_digits_value_prefix(d, n + 1);
        assert(d.take(n + 1).drop_last() =~= d.take(n));
        assert(digits_value(d.take(n)) <= digits_value(d.take(n + 1))) by (nonlinear_arith)
            requires
                digits_value(d.take(n + 1)) == digits_value(d.take(n)) * 10 + ((d.take(n + 1).last() as u32) - 48) as nat,
        ;
    } else {
        assert(d.take(n) =~= d);
    }
}

/// What is wrong with a typed application id, if anything: it must not be
/// blank, must read as a `u64` (after trimming), and must not be zero.
pub open spec fn app_id_verdict(input: Seq<char>) -> Result<u64, Seq<char>> {
    let t = trimmed(input);
    if t.len() == 0 {
        Err("Application ID cannot be empty"@)
    } else {
        match parsed_u64(t) {
            None => Err("Application ID must be a numeric snowflake ID (e.g. 1533559059125637311)"@),
            Some(id) => if id == 0 {
                Err("Application ID must be greater than 0"@)
            } else {
                Ok(id)
            },
        }
    }
}

/// Validates a typed Discord application id.
pub fn parse_app_id(input: &str) -> (r: Result<u64, String>)
    ensures
        match app_id_verdict(input@) {
            Ok(id) => r == Ok::<u64, String>(id),
            Err(m) => r matches Err(x) && x@ == m,
        },
{
    let t = trim(input);
    if t.as_str().is_empty() {
        return Err("Application ID cannot be empty".to_owned());
    }
    match parse_u64(t.as_str()) {
        None => Err("Application ID must be a numeric snowflake ID (e.g. 1533559059125637311)".to_owned()),
        Some(id) => {
            if id == 0 {
                Err("Application ID must be greater than 0".to_owned())
            } else {
                Ok(id)
            }
        },
    }
}

/// The decimal text of a number is a non-empty run of digits whose value
/// is the number.
proof fn lemma_decimal_digits(n: nat)
    ensures
        decimal(n).len() > 0,
        forall|i: int| 0 <= i < decimal(n).len() ==> is_digit(#[trigger] decimal(n)[i]),
        digits_value(decimal(n)) == n,
    decreases n,
{
    if n >= 10 {
        lemma_decimal_digits(n / 10);
        let d = decimal(n);
        assert(d.drop_last() =~= decimal(n / 10));
        let k = (n % 10) as int;
        assert(((digit_char(k) as u32) - 48) as nat == k);
        assert(d.last() == digit_char(k));
        assert((n / 10) * 10 + n % 10 == n);
        assert(digits_value(d) == digits_value(d.drop_last()) * 10 + ((d.last() as u32) - 48) as nat);
    } else {
        let d = decimal(n);
        assert(d.drop_last() =~= Seq::<char>::empty());
        assert(((digit_char(n as int) as u32) - 48) as nat == n);
        assert(digits_value(d) == digits_value(d.drop_last()) * 10 + ((d.last() as u32) - 48) as nat);
    }
}

/// An id written in decimal reads back as itself, and, when not zero, is
/// accepted as an application id.
pub proof fn law_app_id_round_trip(id: u64)
    ensures
        parsed_u64(decimal(id as nat)) == Some(id),
        id > 0 ==> app_id_verdict(decimal(id as nat)) == Ok::<u64, Seq<char>>(id),
{
    lemma_decimal_digits(id as nat);
    let d = decimal(id as nat);
    assert(is_digit(d[0]));
    assert(u64_digits(d) == d);
    assert(is_digit(d.last()));
    assert(trim_start(d) == d);
    assert(trim_end(d) == d);
}

/// What is known of a Discord application: its id in decimal, its name,
/// and the asset chosen as its logo.
#[derive(Debug, Clone)]
pub struct DiscordAppDetails {
    pub id: String,
    pub name: String,
    pub logo_asset: Option<String>,
}

impl DiscordAppDetails {
    /// The details of application `id`, named `name`, with `logo_asset`.
    pub fn new(id: u64, name: String, logo_asset: Option<String>) -> (r: Self)
        ensures
            r.id@ == decimal(id as nat),
            r.name == name,
            r.logo_asset == logo_asset,
    {
        DiscordAppDetails { id: decimal_string(id), name, logo_asset }
    }
}

/// The URL of an application's public RPC record.
pub open spec fn rpc_url_text(id: u64) -> Seq<char> {
    "https://discord.com/api/v10/applications/"@ + decimal(id as nat) + "/rpc"@
}

/// The URL of an application's registered assets.
pub open spec fn assets_url_text(id: u64) -> Seq<char> {
    "https://discord.com/api/v10/oauth2/applications/"@ + decimal(id as nat) + "/assets"@
}

/// The URL of an application's public RPC record.
pub fn rpc_url(id: u64) -> (r: String)
    ensures
        r@ == rpc_url_text(id),
{
    let mut r = "https://discord.com/api/v10/applications/".to_owned();
    append_decimal(&mut r, id);
    crate::text::append_str(&mut r, "/rpc");
    r
}

/// The URL of an application's registered assets.
pub fn assets_url(id: u64) -> (r: String)
    ensures
        r@ == assets_url_text(id),
{
    let mut r = "https://discord.com/api/v10/oauth2/applications/".to_owned();
    append_decimal(&mut r, id);
    crate::text::append_str(&mut r, "/assets");
    r
}

/// The application name from Discord's RPC reply fields `name` and
/// `message`: the name when present; otherwise an explanation, specific
/// when Discord says the application is unknown.
pub open spec fn rpc_name_verdict(name: Option<Seq<char>>, message: Option<Seq<char>>) -> Result<Seq<char>, Seq<char>> {
    match name {
        Some(n) => Ok(n),
        None => match message {
            Some(m) => if ascii_lower_seq(m) == ascii_lower_seq("unknown application"@) {
                Err(
                    "Discord error: Unknown Application. Please make sure this is the Application ID from General Information in Discord Developer Portal (not the Public Key)."@,
                )
            } else {
                Err("Discord error: "@ + m)
            },
            None => Err("Application not found or inaccessible on Discord"@),
        },
    }
}

/// The application name from the RPC reply's `name` and `message` fields.
pub fn app_name_from_rpc(name: Option<String>, message: Option<String>) -> (r: Result<String, String>)
    ensures
        match rpc_name_verdict(opt_view(name), opt_view(message)) {
            Ok(n) => r matches Ok(x) && x@ == n,
            Err(m) => r matches Err(x) && x@ == m,
        },
{
    match name {
        Some(n) => Ok(n),
        None => match message {
            Some(m) => {
                if eq_ignore_ascii_case(m.as_str(), "unknown application") {
                    Err(
                        "Discord error: Unknown Application. Please make sure this is the Application ID from General Information in Discord Developer Portal (not the Public Key).".to_owned(),
                    )
                } else {
                    Err(join_str("Discord error: ", m.as_str()))
                }
            },
            None => Err("Application not found or inaccessible on Discord".to_owned()),
        },
    }
}

/// Whether an asset name is one of `wanted`, ignoring ASCII case.
pub open spec fn named_one_of(n: Option<Seq<char>>, wanted: Seq<Seq<char>>) -> bool {
    n matches Some(x) && exists|j: int| 0 <= j < wanted.len() && ascii_lower_seq(x) == ascii_lower_seq(#[trigger] wanted[j])
}

/// The first asset name that is one of `wanted`, if any.
pub open spec fn first_named(names: Seq<Option<Seq<char>>>, wanted: Seq<Seq<char>>) -> Option<Seq<char>>
    decreases names.len(),
{
    if names.len() == 0 {
        None
    } else if named_one_of(names[0], wanted) {
        names[0]
    } else {
        first_named(names.drop_first(), wanted)
    }
}

/// The logo among an application's assets: the first named "logo", else
/// the first named "app_logo" or "icon", else the first asset's name
/// (all ignoring ASCII case).
pub open spec fn logo_choice(names: Seq<Option<Seq<char>>>) -> Option<Seq<char>> {
    match first_named(names, seq!["logo"@]) {
        Some(n) => Some(n),
        None => match first_named(names, seq!["app_logo"@, "icon"@]) {
            Some(n) => Some(n),
            None => if names.len() > 0 {
                names[0]
            } else {
                None
            },
        },
    }
}

/// The characters of each optional name.
pub open spec fn names_view(names: Seq<Option<String>>) -> Seq<Option<Seq<char>>> {
    Seq::new(names.len(), |i: int| opt_view(names[i]))
}

/// Whether `name` equals one of `wanted`, ignoring ASCII case.
fn name_is_one_of(name: &str, wanted: &Vec<&str>) -> (r: bool)
    ensures
        r == named_one_of(Some(name@), Seq::new(wanted@.len(), |j: int| wanted@[j]@)),
{
    let ghost w = Seq::new(wanted@.len(), |j: int| wanted@[j]@);
    let mut j: usize = 0;
    while j < wanted.len()
        invariant
            j <= wanted@.len(),
            w == Seq::new(wanted@.len(), |k: int| wanted@[k]@),
            forall|k: int| 0 <= k < j ==> ascii_lower_seq(name@) != ascii_lower_seq(#[trigger] w[k]),
        decreases wanted@.len() - j,
    {
        if eq_ignore_ascii_case(name, wanted[j]) {
            assert(w[j as int] == wanted@[j as int]@);
            return true;
        }
        j = j + 1;
    }
    false
}

/// The first of `names` equal to one of `wanted` (ignoring ASCII case).
fn find_named(names: &Vec<Option<String>>, wanted: &Vec<&str>) -> (r: Option<String>)
    ensures
        opt_view(r) == first_named(names_view(names@), Seq::new(wanted@.len(), |j: int| wanted@[j]@)),
{
    let ghost w = Seq::new(wanted@.len(), |j: int| wanted@[j]@);
    let ghost all = names_view(names@);
    let mut i: usize = 0;
    assert(all.skip(0) =~= all);
    while i < names.len()
        invariant
            i <= names@.len(),
            all == names_view(names@),
            w == Seq::new(wanted@.len(), |j: int| wanted@[j]@),
            first_named(all, w) == first_named(all.skip(i as int), w),
        decreases names@.len() - i,
    {
        assert(all.skip(i as int).drop_first() =~= all.skip(i + 1));
        assert(all.skip(i as int)[0] == opt_view(names@[i as int]));
        match &names[i] {
            Some(n) => {
                if name_is_one_of(n.as_str(), wanted) {
                    return Some(n.clone());
                }
            },
            None => {},
        }
        i = i + 1;
    }
    assert(all.skip(i as int).len() == 0);
    None
}

/// Chooses the logo among an application's asset names.
pub fn choose_logo_asset(names: &Vec<Option<String>>) -> (r: Option<String>)
    ensures
        opt_view(r) == logo_choice(names_view(names@)),
{
    let mut logo: Vec<&str> = Vec::new();
    logo.push("logo");
    let mut alternatives: Vec<&str> = Vec::new();
    alternatives.push("app_logo");
    alternatives.push("icon");
    proof {
        assert(Seq::new(logo@.len(), |j: int| logo@[j]@) =~= seq!["logo"@]);
        assert(Seq::new(alternatives@.len(), |j: int| alternatives@[j]@) =~= seq!["app_logo"@, "icon"@]);
    }
    match find_named(names, &logo) {
        Some(n) => Some(n),
        None => match find_named(names, &alternatives) {
            Some(n) => Some(n),
            None => {
                if names.len() > 0 {
                    match &names[0] {
                        Some(n) => Some(n.clone()),
                        None => None,
                    }
                } else {
                    None
                }
            },
        },
    }
}

/// The characters of a text result.
pub open spec fn text_result(r: Result<String, String>) -> Result<Seq<char>, Seq<char>> {
    match r {
        Ok(x) => Ok(x@),
        Err(x) => Err(x@),
    }
}

/// The prefix of the error for an RPC reply that is not JSON.
pub open spec fn invalid_rpc_prefix() -> Seq<char> {
    "Invalid JSON from Discord RPC: "@
}

/// The application name from the body of Discord's RPC reply: the body's
/// JSON `name` and `message` strings, judged by [`rpc_name_verdict`]. A
/// body that is not JSON is refused with serde_json's message after
/// [`invalid_rpc_prefix`].
pub fn app_name_from_rpc_body(body: &str) -> (r: Result<String, String>)
    ensures
        !is_json(body@) ==> (r matches Err(m) && invalid_rpc_prefix().is_prefix_of(m@)),
        is_json(body@) ==> text_result(r) == rpc_name_verdict(
            json_string_member(body@, "name"@),
            json_string_member(body@, "message"@),
        ),
{
    match json_error(body) {
        Some(e) => {
            let m = join_str("Invalid JSON from Discord RPC: ", e.as_str());
            proof {
                reveal_strlit("Invalid JSON from Discord RPC: ");
                assert(m@.take(invalid_rpc_prefix().len() as int) =~= invalid_rpc_prefix());
            }
            Err(m)
        },
        None => {
            let name = string_member(body, "name");
            let message = string_member(body, "message");
            app_name_from_rpc(name, message)
        },
    }
}

/// The logo among the assets listed in the body of Discord's asset reply:
/// the `name` strings of the JSON array's elements, judged by
/// [`logo_choice`]. None when the body is not a JSON array.
pub fn logo_from_assets_body(body: &str) -> (r: Option<String>)
    ensures
        opt_view(r) == match json_array_member_strings(body@, "name"@) {
            Some(names) => logo_choice(names),
            None => None,
        },
        !is_json(body@) ==> r is None,
{
    match array_member_strings(body, "name") {
        None => None,
        Some(names) => {
            assert(names_view(names@) =~= opt_strings(names@));
            choose_logo_asset(&names)
        },
    }
}

} // verus!
