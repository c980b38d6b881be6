use vstd::prelude::*;

verus! {

pub open spec fn cifra(d: int) -> char {
    if d == 0 { '0' }
    else if d == 1 { '1' }
    else if d == 2 { '2' }
    else if d == 3 { '3' }
    else if d == 4 { '4' }
    else if d == 5 { '5' }
    else if d == 6 { '6' }
    else if d == 7 { '7' }
    else if d == 8 { '8' }
    else { '9' }
}

/// The decimal digits of a natural number, most significant first, without
/// leading zeros.
pub open spec fn cifras(n: nat) -> Seq<char>
    decreases n,
{
    if n < 10 {
        seq![cifra(n as int)]
    } else {
        cifras(n / 10).push(cifra((n % 10) as int))
    }
}

/// The decimal text of an integer: a minus sign before negative ones.
pub open spec fn decimal(n: int) -> Seq<char> {
    if n < 0 {
        seq!['-'] + cifras((-n) as nat)
    } else {
        cifras(n as nat)
    }
}

pub open spec fn es_cifra(c: char) -> bool {
    c == '0' || c == '1' || c == '2' || c == '3' || c == '4' || c == '5' || c == '6'
        || c == '7' || c == '8' || c == '9'
}

pub open spec fn valor_cifra(c: char) -> int {
    if c == '1' { 1 }
    else if c == '2' { 2 }
    else if c == '3' { 3 }
    else if c == '4' { 4 }
    else if c == '5' { 5 }
    else if c == '6' { 6 }
    else if c == '7' { 7 }
    else if c == '8' { 8 }
    else if c == '9' { 9 }
    else { 0 }
}

pub open spec fn solo_cifras(s: Seq<char>) -> bool {
    s.len() > 0 && forall|i: int| 0 <= i < s.len() ==> es_cifra(#[trigger] s[i])
}

/// The number that a run of decimal digits stands for.
pub open spec fn valor_cifras(s: Seq<char>) -> int
    decreases s.len(),
{
    if s.len() == 0 {
        0
    } else {
        valor_cifras(s.drop_last()) * 10 + valor_cifra(s.last())
    }
}

/// The integer that a text writes in decimal: an optional `+` or `-`, then
/// one or more digits, and nothing else.
pub open spec fn entero_de_texto(s: Seq<char>) -> Option<int> {
    if s.len() > 0 && (s[0] == '-' || s[0] == '+') {
        let resto = s.drop_first();
        if solo_cifras(resto) {
            Some(if s[0] == '-' { -valor_cifras(resto) } else { valor_cifras(resto) })
        } else {
            None
        }
    } else if solo_cifras(s) {
        Some(valor_cifras(s))
    } else {
        None
    }
}

/// What `i32`'s `FromStr` reads from a text: `None` where it reports an error.
pub open spec fn i32_de_texto(s: Seq<char>) -> Option<i32> {
    match entero_de_texto(s) {
        Some(v) => if i32::MIN <= v <= i32::MAX { Some(v as i32) } else { None },
        None => None,
    }
}

/// What `i64`'s `FromStr` reads from a text: `None` where it reports an error.
pub open spec fn i64_de_texto(s: Seq<char>) -> Option<i64> {
    match entero_de_texto(s) {
        Some(v) => if i64::MIN <= v <= i64::MAX { Some(v as i64) } else { None },
        None => None,
    }
}

proof fn lemma_cifra(d: int)
    requires
        0 <= d < 10,
    ensures
        es_cifra(cifra(d)),
        valor_cifra(cifra(d)) == d,
{
    assert(d == 0 || d == 1 || d == 2 || d == 3 || d == 4 || d == 5 || d == 6 || d == 7 || d == 8
        || d == 9);
}

proof fn lemma_cifras(n: nat)
    ensures
        solo_cifras(cifras(n)),
        valor_cifras(cifras(n)) == n,
    decreases n,
{
    lemma_cifra((n % 10) as int);
    if n >= 10 {
        lemma_cifras(n / 10);
        let s = cifras(n);
        assert(s.drop_last() =~= cifras(n / 10));
        assert(s.last() == cifra((n % 10) as int));
        assert(n == (n / 10) * 10 + n % 10);
        assert(valor_cifras(s) == valor_cifras(cifras(n / 10)) * 10 + valor_cifra(s.last()));
        assert forall|i: int| 0 <= i < s.len() implies es_cifra(#[trigger] s[i]) by {
            if i < s.len() - 1 {
                assert(s[i] == cifras(n / 10)[i]);
            }
        }
    } else {
        assert(cifras(n).drop_last() =~= Seq::<char>::empty());
        assert(valor_cifras(cifras(n)) == valor_cifras(Seq::<char>::empty()) * 10 + valor_cifra(cifra(n as int)));
    }
}

/// The decimal text of an integer reads back as that integer.
pub proof fn lemma_decimal_se_lee(n: int)
    ensures
        entero_de_texto(decimal(n)) == Some(n),
{
    if n < 0 {
        lemma_cifras((-n) as nat);
        assert(decimal(n).drop_first() =~= cifras((-n) as nat));
    } else {
        lemma_cifras(n as nat);
        let s = cifras(n as nat);
        assert(es_cifra(s[0]));
    }
}

/// Relies on `i32`'s `ToString` (through `Display`): the decimal digits, with
/// a leading `-` for a negative number.
#[verifier::external_body]
pub(crate) fn texto_i32(n: i32) -> (r: String)
    ensures
        r@ == decimal(n as int),
{
    n.to_string()
}

/// Relies on `i64`'s `ToString` (through `Display`): the decimal digits, with
/// a leading `-` for a negative number.
#[verifier::external_body]
pub(crate) fn texto_i64(n: i64) -> (r: String)
    ensures
        r@ == decimal(n as int),
{
    n.to_string()
}

/// Relies on `str::parse::<i32>`: an optional sign and decimal digits, an
/// error for any other text or for a value out of range.
#[verifier::external_body]
pub(crate) fn leer_i32(s: &str) -> (r: Option<i32>)
    ensures
        r == i32_de_texto(s@),
{
    match s.parse::<i32>() {
        Ok(n) => Some(n),
        Err(_) => None,
    }
}

/// Relies on `str::parse::<i64>`: an optional sign and decimal digits, an
/// error for any other text or for a value out of range.
#[verifier::external_body]
pub(crate) fn leer_i64(s: &str) -> (r: Option<i64>)
    ensures
        r == i64_de_texto(s@),
{
    match s.parse::<i64>() {
        Ok(n) => Some(n),
        Err(_) => None,
    }
}

/// Whether `s` begins with `p`.
pub open spec fn empieza_con(s: Seq<char>, p: Seq<char>) -> bool {
    p.len() <= s.len() && s.subrange(0, p.len() as int) == p
}

/// Tests whether `s` begins with `p`.
pub fn comienza_con(s: &str, p: &str) -> (r: bool)
    ensures
        r == empieza_con(s@, p@),
{
    let ls = s.unicode_len();
    let lp = p.unicode_len();
    if lp > ls {
        return false;
    }
    let mut i: usize = 0;
    while i < lp
        invariant
            lp == p@.len(),
            ls == s@.len(),
            lp <= ls,
            i <= lp,
            forall|j: int| 0 <= j < i ==> s@[j] == p@[j],
        decreases lp - i,
    {
        if s.get_char(i) != p.get_char(i) {
            assert(s@.subrange(0, lp as int)[i as int] != p@[i as int]);
            return false;
        }
        i = i + 1;
    }
    assert(s@.subrange(0, lp as int) =~= p@);
    true
}

/// Joins two texts.
pub fn unir(a: &str, b: &str) -> (r: String)
    ensures
        r@ == a@ + b@,
{
    let mut r = String::from_str(a);
    r.append(b);
    r
}

} // verus!
