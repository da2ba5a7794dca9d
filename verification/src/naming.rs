//! Session names and the place of each session's shared region.
//!
//! A session is named `neon.<id>` with `id` in decimal; its region is the
//! object of that name under the shared-memory namespace root.

use rand::Rng;
use vstd::prelude::*;

verus! {

/// The character that writes the decimal digit `d`.
pub open spec fn digit_char(d: int) -> char {
    if d == 0 {
        '0'
    } else if d == 1 {
        '1'
    } else if d == 2 {
        '2'
    } else if d == 3 {
        '3'
    } else if d == 4 {
        '4'
    } else if d == 5 {
        '5'
    } else if d == 6 {
        '6'
    } else if d == 7 {
        '7'
    } else if d == 8 {
        '8'
    } else {
        '9'
    }
}

/// `n` written in decimal, without leading zeros.
pub open spec fn decimal(n: nat) -> Seq<char>
    decreases n,
{
    if n < 10 {
        seq![digit_char(n as int)]
    } else {
        decimal(n / 10).push(digit_char((n % 10) as int))
    }
}

/// The name of the session with number `id`.
pub open spec fn session_name_chars(id: nat) -> Seq<char> {
    "neon."@ + decimal(id)
}

/// The path of the region named `name`.
pub open spec fn region_path_chars(name: Seq<char>) -> Seq<char> {
    "/dev/shm/neon"@ + "/"@ + name
}

/// A decimal number has at least one digit, and two from ten on.
pub proof fn lemma_decimal_len(n: nat)
    ensures
        decimal(n).len() >= 1,
        n >= 10 ==> decimal(n).len() >= 2,
    decreases n,
{
    if n >= 10 {
        lemma_decimal_len(n / 10);
    }
}

/// Two numbers with the same decimal writing are the same number.
pub proof fn lemma_decimal_injective(a: nat, b: nat)
    requires
        decimal(a) == decimal(b),
    ensures
        a == b,
    decreases a,
{
    lemma_decimal_len(a);
    lemma_decimal_len(b);
    if a < 10 && b < 10 {
        assert(decimal(a)[0] == digit_char(a as int));
        assert(decimal(b)[0] == digit_char(b as int));
        lemma_digit_injective(a as int, b as int);
    } else if a >= 10 && b >= 10 {
        let da = decimal(a / 10);
        let db = decimal(b / 10);
        assert(decimal(a).last() == digit_char((a % 10) as int));
        assert(decimal(b).last() == digit_char((b % 10) as int));
        lemma_digit_injective((a % 10) as int, (b % 10) as int);
        assert(decimal(a).drop_last() == da);
        assert(decimal(b).drop_last() == db);
        lemma_decimal_injective(a / 10, b / 10);
        assert(a == 10 * (a / 10) + a % 10);
        assert(b == 10 * (b / 10) + b % 10);
    }
}

/// Different digits are written with different characters.
pub proof fn lemma_digit_injective(c: int, d: int)
    requires
        0 <= c < 10,
        0 <= d < 10,
        digit_char(c) == digit_char(d),
    ensures
        c == d,
{
}

/// Sessions with different numbers have different names and their regions
/// lie at different paths, so no two of them share a region.
pub proof fn lemma_distinct_sessions_distinct_regions(a: nat, b: nat)
    requires
        a != b,
    ensures
        session_name_chars(a) != session_name_chars(b),
        region_path_chars(session_name_chars(a)) != region_path_chars(session_name_chars(b)),
{
    let prefix = "neon."@;
    let root = "/dev/shm/neon"@ + "/"@;
    if session_name_chars(a) == session_name_chars(b) {
        assert(decimal(a) == session_name_chars(a).subrange(
            prefix.len() as int,
            session_name_chars(a).len() as int,
        ));
        assert(decimal(b) == session_name_chars(b).subrange(
            prefix.len() as int,
            session_name_chars(b).len() as int,
        ));
        lemma_decimal_injective(a, b);
    }
    let pa = region_path_chars(session_name_chars(a));
    let pb = region_path_chars(session_name_chars(b));
    if pa == pb {
        assert(session_name_chars(a) == pa.subrange(root.len() as int, pa.len() as int));
        assert(session_name_chars(b) == pb.subrange(root.len() as int, pb.len() as int));
    }
}

/// The one-character string of a decimal digit.
fn digit_str(d: u32) -> (s: &'static str)
    requires
        d < 10,
    ensures
        s@ == seq![digit_char(d as int)],
{
    proof {
        reveal_strlit("0");
        reveal_strlit("1");
        reveal_strlit("2");
        reveal_strlit("3");
        reveal_strlit("4");
        reveal_strlit("5");
        reveal_strlit("6");
        reveal_strlit("7");
        reveal_strlit("8");
        reveal_strlit("9");
    }
    let s = match d {
        0 => "0",
        1 => "1",
        2 => "2",
        3 => "3",
        4 => "4",
        5 => "5",
        6 => "6",
        7 => "7",
        8 => "8",
        _ => "9",
    };
    assert(s@ =~= seq![digit_char(d as int)]);
    s
}

/// Writes `n` in decimal.
pub fn decimal_string(n: u32) -> (s: String)
    ensures
        s@ == decimal(n as nat),
    decreases n,
{
    if n < 10 {
        String::from_str(digit_str(n))
    } else {
        let mut s = decimal_string(n / 10);
        s.append(digit_str(n % 10));
        assert(s@ =~= decimal(n as nat));
        s
    }
}

/// The name of the session with number `id`: `neon.` and the number.
pub fn session_name(id: u32) -> (name: String)
    ensures
        name@ == session_name_chars(id as nat),
{
    let mut name = String::from_str("neon.");
    let digits = decimal_string(id);
    name.append(digits.as_str());
    name
}

/// The path of the backing object of the region named `name`, under the
/// namespace root `/dev/shm/neon`.
pub fn region_path(name: &str) -> (path: String)
    ensures
        path@ == region_path_chars(name@),
{
    let mut path = String::from_str("/dev/shm/neon");
    path.append("/");
    path.append(name);
    path
}

/// Draws a number from `rand::thread_rng()` with `Rng::gen::<u32>()`. Every
/// `u32` can come back, and two calls need not agree, so the contract says
/// nothing of the value. The generator is seeded by the system on first use.
#[verifier::external_body]
fn random_session_id() -> (id: u32) {
    rand::thread_rng().gen::<u32>()
}

/// A session name with a number drawn at random.
pub fn fresh_session_name() -> (name: String)
    ensures
        exists|id: u32| name@ == session_name_chars(id as nat),
{
    let id = random_session_id();
    let name = session_name(id);
    assert(name@ == session_name_chars(id as nat));
    name
}

} // verus!
