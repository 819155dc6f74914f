use vstd::prelude::*;

verus! {

/// The decimal digit `d` as a character.
pub open spec fn digit_char(d: nat) -> char {
    (48 + d) as char
}

/// The decimal notation of `n`, without leading zeros.
pub open spec fn decimal(n: nat) -> Seq<char>
    decreases n,
{
    if n < 10 {
        seq![digit_char(n)]
    } else {
        decimal(n / 10).push(digit_char(n % 10))
    }
}

/// The address that the client connects to: the base URL, a colon and the
/// port in decimal, then a slash and the endpoint where one is given.
pub open spec fn address(url: Seq<char>, port: nat, endpoint: Option<Seq<char>>) -> Seq<char> {
    let base = url + seq![':'] + decimal(port);
    match endpoint {
        Some(e) => base + seq!['/'] + e,
        None => base,
    }
}

fn digit_str(d: usize) -> (s: &'static str)
    requires
        d < 10,
    ensures
        s@ == seq![digit_char(d as nat)],
{
    match d {
        0 => {
            proof { reveal_strlit("0"); }
            "0"
        },
        1 => {
            proof { reveal_strlit("1"); }
            "1"
        },
        2 => {
            proof { reveal_strlit("2"); }
            "2"
        },
        3 => {
            proof { reveal_strlit("3"); }
            "3"
        },
        4 => {
            proof { reveal_strlit("4"); }
            "4"
        },
        5 => {
            proof { reveal_strlit("5"); }
            "5"
        },
        6 => {
            proof { reveal_strlit("6"); }
            "6"
        },
        7 => {
            proof { reveal_strlit("7"); }
            "7"
        },
        8 => {
            proof { reveal_strlit("8"); }
            "8"
        },
        _ => {
            proof { reveal_strlit("9"); }
            "9"
        },
    }
}

fn append_decimal(s: &mut String, n: usize)
    ensures
        final(s)@ == old(s)@ + decimal(n as nat),
    decreases n,
{
    if n >= 10 {
        append_decimal(s, n / 10);
    }
    s.append(digit_str(n % 10));
    proof {
        if n >= 10 {
            assert(old(s)@ + decimal((n / 10) as nat) + seq![digit_char((n % 10) as nat)]
                =~= old(s)@ + decimal(n as nat));
        } else {
            assert(decimal(n as nat) == seq![digit_char(n as nat)]);
        }
    }
}

/// Builds the address of the broker from its base URL, its port and an
/// optional endpoint path.
pub fn connection_string(url: &str, port: usize, endpoint: Option<&str>) -> (s: String)
    ensures
        s@ == address(url@, port as nat, match endpoint {
            Some(e) => Some(e@),
            None => None,
        }),
{
    let mut s = String::from_str(url);
    proof { reveal_strlit(":"); }
    s.append(":");
    append_decimal(&mut s, port);
    if let Some(e) = endpoint {
        proof { reveal_strlit("/"); }
        s.append("/");
        s.append(e);
    }
    s
}

/// The number that a string of decimal digits denotes.
pub open spec fn digits_value(s: Seq<char>) -> int
    decreases s.len(),
{
    if s.len() == 0 {
        0
    } else {
        digits_value(s.drop_last()) * 10 + (s.last() as int - 48)
    }
}

/// The decimal notation of a number is made of digits only, has no leading
/// zero, and reads back as the number.
pub proof fn lemma_decimal_reads_back(n: nat)
    ensures
        decimal(n).len() >= 1,
        forall|i: int| 0 <= i < decimal(n).len() ==> '0' <= #[trigger] decimal(n)[i] <= '9',
        n >= 10 ==> decimal(n)[0] != '0',
        digits_value(decimal(n)) == n,
    decreases n,
{
    if n < 10 {
        assert(decimal(n) =~= seq![digit_char(n)]);
        assert(decimal(n).drop_last() =~= Seq::<char>::empty());
        assert(digit_char(n) as int == 48 + n);
        assert(digits_value(Seq::<char>::empty()) == 0);
        assert(digits_value(decimal(n)) == digits_value(decimal(n).drop_last()) * 10 + (
        decimal(n).last() as int - 48));
    } else {
        lemma_decimal_reads_back(n / 10);
        let d = decimal(n);
        assert(d.drop_last() =~= decimal(n / 10));
        assert(d.last() == digit_char(n % 10));
        assert(digit_char(n % 10) as int == 48 + n % 10);
        assert(n == (n / 10) * 10 + n % 10) by (nonlinear_arith);
        assert(digits_value(d) == digits_value(d.drop_last()) * 10 + (d.last() as int - 48));
        assert forall|i: int| 0 <= i < d.len() implies '0' <= #[trigger] d[i] <= '9' by {
            if i < d.len() - 1 {
                assert(d[i] == decimal(n / 10)[i]);
            }
        }
        if n / 10 >= 10 {
            assert(d[0] == decimal(n / 10)[0]);
        } else {
            assert(decimal(n / 10) =~= seq![digit_char(n / 10)]);
            assert(d[0] == digit_char(n / 10));
            assert(n / 10 >= 1);
        }
    }
}

/// The address is the base URL, a colon, the port in decimal digits that
/// read back as the port, and then, where an endpoint is given, a slash and
/// the endpoint; nothing else.
pub proof fn lemma_address_layout(url: Seq<char>, port: nat, endpoint: Option<Seq<char>>)
    ensures
        ({
            let a = address(url, port, endpoint);
            let digits = decimal(port);
            let base_len: int = (url.len() + 1 + digits.len()) as int;
            &&& a.subrange(0, url.len() as int) == url
            &&& a[url.len() as int] == ':'
            &&& a.subrange(url.len() + 1 as int, base_len) == digits
            &&& digits_value(digits) == port
            &&& digits.len() >= 1
            &&& forall|i: int| 0 <= i < digits.len() ==> '0' <= #[trigger] digits[i] <= '9'
            &&& endpoint is None ==> a.len() == base_len
            &&& endpoint matches Some(e) ==> {
                &&& a.len() == base_len + 1 + e.len()
                &&& a[base_len] == '/'
                &&& a.subrange(base_len + 1, a.len() as int) == e
            }
        }),
{
    lemma_decimal_reads_back(port);
    let a = address(url, port, endpoint);
    let digits = decimal(port);
    let base = url + seq![':'] + digits;
    let base_len: int = (url.len() + 1 + digits.len()) as int;
    assert(base.subrange(0, url.len() as int) =~= url);
    assert(base.subrange(url.len() + 1 as int, base_len) =~= digits);
    match endpoint {
        Some(e) => {
            let full = base + seq!['/'] + e;
            assert(full.subrange(0, url.len() as int) =~= url);
            assert(full.subrange(url.len() + 1 as int, base_len) =~= digits);
            assert(full.subrange(base_len + 1, full.len() as int) =~= e);
            assert(full[url.len() as int] == ':');
        },
        None => {
            assert(base[url.len() as int] == ':');
        },
    }
}

} // verus!
