use vstd::prelude::*;

verus! {

/// The port on which the game's web server listens.
pub const PORT: u16 = 9622;

/// The decimal digit `d` as text.
pub open spec fn digit_text(d: int) -> Seq<char> {
    if d == 0 {
        "0"@
    } else if d == 1 {
        "1"@
    } else if d == 2 {
        "2"@
    } else if d == 3 {
        "3"@
    } else if d == 4 {
        "4"@
    } else if d == 5 {
        "5"@
    } else if d == 6 {
        "6"@
    } else if d == 7 {
        "7"@
    } else if d == 8 {
        "8"@
    } else {
        "9"@
    }
}

/// `n` written in decimal, without leading zeros.
pub open spec fn decimal_text(n: nat) -> Seq<char>
    decreases n,
{
    if n < 10 {
        digit_text(n as int)
    } else {
        decimal_text(n / 10) + digit_text((n % 10) as int)
    }
}

/// The address of `path` on the game's own web server.
pub open spec fn local_url_text(path: Seq<char>) -> Seq<char> {
    "http://localhost:"@ + decimal_text(PORT as nat) + path
}

fn digit_str(d: u16) -> (s: &'static str)
    requires
        d < 10,
    ensures
        s@ == digit_text(d as int),
{
    if d == 0 {
        "0"
    } else if d == 1 {
        "1"
    } else if d == 2 {
        "2"
    } else if d == 3 {
        "3"
    } else if d == 4 {
        "4"
    } else if d == 5 {
        "5"
    } else if d == 6 {
        "6"
    } else if d == 7 {
        "7"
    } else if d == 8 {
        "8"
    } else {
        "9"
    }
}

/// `n` in decimal.
pub fn decimal(n: u16) -> (s: String)
    ensures
        s@ == decimal_text(n as nat),
    decreases n,
{
    if n < 10 {
        String::from_str(digit_str(n))
    } else {
        let mut s = decimal(n / 10);
        s.append(digit_str(n % 10));
        s
    }
}

/// The address of `path` on the game's own web server, such as
/// `http://localhost:9622/` for `/`.
pub fn local_url(path: &str) -> (url: String)
    ensures
        url@ == local_url_text(path@),
{
    let mut url = String::from_str("http://localhost:");
    let port = decimal(PORT);
    url.append(port.as_str());
    url.append(path);
    url
}

/// Whether two texts are the same, character for character.
pub fn same_text(a: &str, b: &str) -> (same: bool)
    ensures
        same == (a@ == b@),
{
    let n = a.unicode_len();
    if n != b.unicode_len() {
        return false;
    }
    let mut i: usize = 0;
    while i < n
        invariant
            n == a@.len(),
            n == b@.len(),
            i <= n,
            forall|j: int| 0 <= j < i ==> a@[j] == b@[j],
        decreases n - i,
    {
        if a.get_char(i) != b.get_char(i) {
            return false;
        }
        i = i + 1;
    }
    assert(a@ =~= b@);
    true
}

/// The game's port reads `9622`.
pub proof fn lemma_port_text()
    ensures
        decimal_text(PORT as nat) == "9622"@,
{
    reveal_with_fuel(decimal_text, 5);
    reveal_strlit("9");
    reveal_strlit("6");
    reveal_strlit("2");
    reveal_strlit("9622");
    assert(decimal_text(9) == "9"@);
    assert(decimal_text(96) =~= "9"@ + "6"@);
    assert(decimal_text(962) =~= "9"@ + "6"@ + "2"@);
    assert(decimal_text(9622) =~= "9622"@);
}

/// Every address on the game's own server starts with
/// `http://localhost:9622` and ends with the path asked for.
pub proof fn lemma_local_url_shape(path: Seq<char>)
    ensures
        local_url_text(path) == "http://localhost:9622"@ + path,
{
    lemma_port_text();
    reveal_strlit("http://localhost:");
    reveal_strlit("http://localhost:9622");
    reveal_strlit("9622");
    assert("http://localhost:"@ + "9622"@ =~= "http://localhost:9622"@);
    assert(local_url_text(path) =~= "http://localhost:9622"@ + path);
}

/// The number that a text of decimal digits stands for.
pub open spec fn digits_value(s: Seq<char>) -> int
    decreases s.len(),
{
    if s.len() == 0 {
        0
    } else {
        digits_value(s.drop_last()) * 10 + ((s.last() as u32) - ('0' as u32))
    }
}

/// `decimal_text(n)` is made of decimal digits that stand for `n`.
pub proof fn lemma_decimal_reads_back(n: nat)
    ensures
        decimal_text(n).len() > 0,
        forall|i: int|
            0 <= i < decimal_text(n).len() ==> ('0' as u32) <= (#[trigger] decimal_text(n)[i] as u32)
                <= ('9' as u32),
        digits_value(decimal_text(n)) == n,
    decreases n,
{
    reveal_strlit("0");
    reveal_strlit("1");
    reveal_strlit("2");
    reveal_strlit("3");
    reveal_strlit("4");
    reveal_strlit("5");
    reveal_strlit("6");
    reveal_strlit("7");
    reveal_strlit("8");
    reveal_strlit("9");
    let d = (n % 10) as int;
    assert(digit_text(d).len() == 1);
    assert(digit_text(d)[0] as u32 - '0' as u32 == d);
    assert(('0' as u32) <= (digit_text(d)[0] as u32) <= ('9' as u32));
    if n < 10 {
        assert(digit_text(n as int).drop_last() =~= Seq::<char>::empty());
        assert(d == n);
        assert(digits_value(digit_text(d)) == digits_value(Seq::<char>::empty()) * 10 + d);
    } else {
        lemma_decimal_reads_back(n / 10);
        let s = decimal_text(n);
        assert(s == decimal_text(n / 10) + digit_text(d));
        assert(s.drop_last() =~= decimal_text(n / 10));
        assert(s.last() == digit_text(d)[0]);
        assert(digits_value(s) == digits_value(decimal_text(n / 10)) * 10 + d);
        assert(n == (n / 10) * 10 + d);
        assert forall|i: int| 0 <= i < s.len() implies ('0' as u32) <= (#[trigger] s[i] as u32)
            <= ('9' as u32) by {
            if i < s.len() - 1 {
                assert(s[i] == decimal_text(n / 10)[i]);
            } else {
                assert(s[i] == digit_text(d)[0]);
            }
        }
    }
}

} // verus!
