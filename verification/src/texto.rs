//! Text helpers shared by the registration-number rules and the folder rules:
//! whitespace trimming, hyphen removal, digit checks, prefixes and decimal
//! rendering, each stated over `Seq<char>`.
use vstd::prelude::*;

verus! {

// ---------------------------------------------------------------------------
// Specifications
// ---------------------------------------------------------------------------

/// The Unicode `White_Space` property, which is what `char::is_whitespace`
/// (and therefore `str::trim`) tests.
pub open spec fn eh_espaco(c: char) -> bool {
    ||| ('\u{9}' <= c && c <= '\u{d}')
    ||| c == ' '
    ||| c == '\u{85}'
    ||| c == '\u{a0}'
    ||| c == '\u{1680}'
    ||| ('\u{2000}' <= c && c <= '\u{200a}')
    ||| c == '\u{2028}'
    ||| c == '\u{2029}'
    ||| c == '\u{202f}'
    ||| c == '\u{205f}'
    ||| c == '\u{3000}'
}

/// `s` without its leading whitespace.
pub open spec fn sem_espacos_inicio(s: Seq<char>) -> Seq<char>
    decreases s.len(),
{
    if s.len() > 0 && eh_espaco(s[0]) {
        sem_espacos_inicio(s.drop_first())
    } else {
        s
    }
}

/// `s` without its trailing whitespace.
pub open spec fn sem_espacos_fim(s: Seq<char>) -> Seq<char>
    decreases s.len(),
{
    if s.len() > 0 && eh_espaco(s.last()) {
        sem_espacos_fim(s.drop_last())
    } else {
        s
    }
}

/// `s` without leading and trailing whitespace (what `str::trim` returns).
pub open spec fn aparar(s: Seq<char>) -> Seq<char> {
    sem_espacos_fim(sem_espacos_inicio(s))
}

/// `s` with every `'-'` removed.
pub open spec fn sem_hifen(s: Seq<char>) -> Seq<char>
    decreases s.len(),
{
    if s.len() == 0 {
        s
    } else if s.last() == '-' {
        sem_hifen(s.drop_last())
    } else {
        sem_hifen(s.drop_last()).push(s.last())
    }
}

/// An ASCII decimal digit.
pub open spec fn eh_digito(c: char) -> bool {
    '0' <= c && c <= '9'
}

/// Every character of `s` is an ASCII decimal digit.
pub open spec fn so_digitos(s: Seq<char>) -> bool {
    forall|i: int| 0 <= i < s.len() ==> #[trigger] eh_digito(s[i])
}

/// `s` starts with `p`.
pub open spec fn comeca_com(s: Seq<char>, p: Seq<char>) -> bool {
    p.len() <= s.len() && s.subrange(0, p.len() as int) == p
}

/// The character of the decimal digit `d` (`d < 10`).
pub open spec fn char_do_digito(d: nat) -> char {
    if d == 0 {
        '0'
    } else if d == 1 {
        '1'
    } else if d == 2 {
        '2'
    } else if d == 3 {
        '3'
    } else if d == 4 {
        '4'
    } else if d == 5 {
        '5'
    } else if d == 6 {
        '6'
    } else if d == 7 {
        '7'
    } else if d == 8 {
        '8'
    } else {
        '9'
    }
}

/// The decimal representation of `n`, without leading zeros
/// (what `u64::to_string` gives).
pub open spec fn decimal(n: nat) -> Seq<char>
    decreases n,
{
    if n < 10 {
        seq![char_do_digito(n)]
    } else {
        decimal(n / 10).push(char_do_digito(n % 10))
    }
}

/// The text that `std::string::ToString::to_uppercase` gives for `s`: the
/// Unicode uppercase mapping, applied character by character (one
/// character may map to several).
pub uninterp spec fn maiusculas_unicode(s: Seq<char>) -> Seq<char>;

// ---------------------------------------------------------------------------
// Lemmas
// ---------------------------------------------------------------------------

/// Removing hyphens distributes over concatenation.
pub proof fn lemma_sem_hifen_concat(a: Seq<char>, b: Seq<char>)
    ensures
        sem_hifen(a + b) == sem_hifen(a) + sem_hifen(b),
    decreases b.len(),
{
    if b.len() == 0 {
        assert(a + b =~= a);
        assert(sem_hifen(b) =~= Seq::<char>::empty());
        assert(sem_hifen(a) + sem_hifen(b) =~= sem_hifen(a));
    } else {
        let b0 = b.drop_last();
        lemma_sem_hifen_concat(a, b0);
        assert((a + b).drop_last() =~= a + b0);
        assert((a + b).last() == b.last());
        if b.last() == '-' {
        } else {
            assert(sem_hifen(a) + sem_hifen(b0).push(b.last()) =~= (sem_hifen(a) + sem_hifen(b0)).push(
                b.last(),
            ));
        }
    }
}

/// A sequence without hyphens is unchanged by hyphen removal.
pub proof fn lemma_sem_hifen_identidade(s: Seq<char>)
    requires
        forall|i: int| 0 <= i < s.len() ==> s[i] != '-',
    ensures
        sem_hifen(s) == s,
    decreases s.len(),
{
    if s.len() > 0 {
        lemma_sem_hifen_identidade(s.drop_last());
        assert(s.drop_last().push(s.last()) =~= s);
    }
}

/// Digits contain no hyphen, so removing hyphens keeps them.
pub proof fn lemma_sem_hifen_digitos(s: Seq<char>)
    requires
        so_digitos(s),
    ensures
        sem_hifen(s) == s,
{
    assert forall|i: int| 0 <= i < s.len() implies s[i] != '-' by {
        assert(eh_digito(s[i]));
    }
    lemma_sem_hifen_identidade(s);
}

/// Removing hyphens never yields a hyphen.
pub proof fn lemma_sem_hifen_sem_hifen(s: Seq<char>)
    ensures
        forall|i: int| 0 <= i < sem_hifen(s).len() ==> sem_hifen(s)[i] != '-',
        sem_hifen(s).len() <= s.len(),
    decreases s.len(),
{
    if s.len() > 0 {
        lemma_sem_hifen_sem_hifen(s.drop_last());
    }
}

/// A sequence with no surrounding whitespace is its own trim.
pub proof fn lemma_aparar_identidade(s: Seq<char>)
    requires
        s.len() > 0 ==> !eh_espaco(s[0]) && !eh_espaco(s.last()),
    ensures
        aparar(s) == s,
{
}

/// The decimal representation is never empty and only holds digits.
pub proof fn lemma_decimal_digitos(n: nat)
    ensures
        decimal(n).len() >= 1,
        so_digitos(decimal(n)),
    decreases n,
{
    if n >= 10 {
        lemma_decimal_digitos(n / 10);
        let r = decimal(n / 10);
        assert forall|i: int| 0 <= i < decimal(n).len() implies #[trigger] eh_digito(
            decimal(n)[i],
        ) by {
            if i < r.len() {
                assert(decimal(n)[i] == r[i]);
                assert(eh_digito(r[i]));
            }
        }
    }
}

/// The number that a run of decimal digits denotes, most significant first.
pub open spec fn valor_decimal(s: Seq<char>) -> int
    decreases s.len(),
{
    if s.len() == 0 {
        0
    } else {
        valor_decimal(s.drop_last()) * 10 + (s.last() as int - '0' as int)
    }
}

proof fn lemma_valor_do_digito(d: nat)
    requires
        d < 10,
    ensures
        char_do_digito(d) as int - '0' as int == d,
{
    assert('0' as int == 48);
    assert('1' as int == 49);
    assert('2' as int == 50);
    assert('3' as int == 51);
    assert('4' as int == 52);
    assert('5' as int == 53);
    assert('6' as int == 54);
    assert('7' as int == 55);
    assert('8' as int == 56);
    assert('9' as int == 57);
}

/// `decimal(n)` is the decimal writing of `n`: digits `'0'`..`'9'` only, no
/// leading zero unless `n` is zero, and denoting `n` back.
pub proof fn lei_decimal(n: nat)
    ensures
        decimal(n).len() >= 1,
        forall|i: int| 0 <= i < decimal(n).len() ==> '0' <= #[trigger] decimal(n)[i] && decimal(n)[i] <= '9',
        n > 0 ==> decimal(n)[0] != '0',
        valor_decimal(decimal(n)) == n,
    decreases n,
{
    lemma_decimal_digitos(n);
    assert forall|i: int| 0 <= i < decimal(n).len() implies '0' <= #[trigger] decimal(n)[i] && decimal(n)[i] <= '9' by {
        assert(eh_digito(decimal(n)[i]));
    }
    if n < 10 {
        lemma_valor_do_digito(n);
        assert(decimal(n) =~= seq![char_do_digito(n)]);
        assert(decimal(n).drop_last() =~= Seq::<char>::empty());
        assert(valor_decimal(Seq::<char>::empty()) == 0);
        assert(valor_decimal(decimal(n)) == valor_decimal(decimal(n).drop_last()) * 10 + (
        decimal(n).last() as int - '0' as int));
    } else {
        lemma_valor_do_digito(n % 10);
        lei_decimal(n / 10);
        let r = decimal(n / 10);
        assert(decimal(n).drop_last() =~= r);
        assert(decimal(n)[0] == r[0]);
        assert((n / 10) * 10 + n % 10 == n) by (nonlinear_arith);
        assert(decimal(n).last() == char_do_digito(n % 10));
        assert(valor_decimal(decimal(n)) == valor_decimal(r) * 10 + (decimal(n).last() as int
            - '0' as int));
    }
}

// ---------------------------------------------------------------------------
// Executable functions
// ---------------------------------------------------------------------------

/// Appends the character `c` to `s` (`String::push`).
#[verifier::external_body]
pub(crate) fn empurrar(s: &mut String, c: char)
    ensures
        final(s)@ == old(s)@.push(c),
{
    s.push(c);
}

/// Uppercases `s` (`str::to_uppercase`). The result is named: it is
/// `maiusculas_unicode` of the input, and nothing more is claimed of it.
#[verifier::external_body]
pub(crate) fn maiusculas(s: &str) -> (r: String)
    ensures
        r@ == maiusculas_unicode(s@),
{
    s.to_uppercase()
}

/// Whether `c` has the Unicode `White_Space` property.
pub fn espaco(c: char) -> (r: bool)
    ensures
        r == eh_espaco(c),
{
    ('\u{9}' <= c && c <= '\u{d}') || c == ' ' || c == '\u{85}' || c == '\u{a0}' || c == '\u{1680}'
        || ('\u{2000}' <= c && c <= '\u{200a}') || c == '\u{2028}' || c == '\u{2029}' || c
        == '\u{202f}' || c == '\u{205f}' || c == '\u{3000}'
}

/// Whether `c` is an ASCII decimal digit.
pub fn digito(c: char) -> (r: bool)
    ensures
        r == eh_digito(c),
        r == ('0' <= c && c <= '9'),
{
    '0' <= c && c <= '9'
}

/// `s` without leading and trailing whitespace.
pub fn aparar_texto(s: &str) -> (r: &str)
    ensures
        r@ == aparar(s@),
{
    let n = s.unicode_len();
    let mut i: usize = 0;
    assert(s@.subrange(0, n as int) =~= s@);
    while i < n && espaco(s.get_char(i))
        invariant
            i <= n,
            n == s@.len(),
            sem_espacos_inicio(s@) == sem_espacos_inicio(s@.subrange(i as int, n as int)),
        decreases n - i,
    {
        assert(s@.subrange(i as int, n as int).drop_first() =~= s@.subrange(
            i + 1,
            n as int,
        ));
        i = i + 1;
    }
    let ghost meio = s@.subrange(i as int, n as int);
    assert(sem_espacos_inicio(s@) == meio);
    let mut j: usize = n;
    while j > i && espaco(s.get_char(j - 1))
        invariant
            i <= j <= n,
            n == s@.len(),
            meio == s@.subrange(i as int, n as int),
            sem_espacos_fim(meio) == sem_espacos_fim(s@.subrange(i as int, j as int)),
        decreases j - i,
    {
        assert(s@.subrange(i as int, j as int).drop_last() =~= s@.subrange(
            i as int,
            j - 1,
        ));
        j = j - 1;
    }
    s.substring_char(i, j)
}

/// `s` with every `'-'` removed.
pub fn remover_hifens(s: &str) -> (r: String)
    ensures
        r@ == sem_hifen(s@),
{
    let n = s.unicode_len();
    let mut r = String::new();
    let mut i: usize = 0;
    assert(s@.subrange(0, 0) =~= Seq::<char>::empty());
    while i < n
        invariant
            i <= n,
            n == s@.len(),
            r@ == sem_hifen(s@.subrange(0, i as int)),
        decreases n - i,
    {
        let c = s.get_char(i);
        assert(s@.subrange(0, i + 1).drop_last() =~= s@.subrange(0, i as int));
        assert(s@.subrange(0, i + 1).last() == c);
        if c != '-' {
            empurrar(&mut r, c);
        }
        i = i + 1;
    }
    assert(s@.subrange(0, n as int) =~= s@);
    r
}

/// Whether every character of `s` is an ASCII decimal digit.
pub fn todos_digitos(s: &str) -> (r: bool)
    ensures
        r == so_digitos(s@),
{
    let n = s.unicode_len();
    let mut i: usize = 0;
    while i < n
        invariant
            i <= n,
            n == s@.len(),
            forall|k: int| 0 <= k < i ==> #[trigger] eh_digito(s@[k]),
        decreases n - i,
    {
        if !digito(s.get_char(i)) {
            return false;
        }
        i = i + 1;
    }
    true
}

/// Whether `s` starts with `p`.
pub fn comeca_com_texto(s: &str, p: &str) -> (r: bool)
    ensures
        r == comeca_com(s@, p@),
{
    let n = s.unicode_len();
    let m = p.unicode_len();
    if m > n {
        return false;
    }
    let mut i: usize = 0;
    while i < m
        invariant
            i <= m <= n,
            n == s@.len(),
            m == p@.len(),
            forall|k: int| 0 <= k < i ==> s@[k] == p@[k],
        decreases m - i,
    {
        if s.get_char(i) != p.get_char(i) {
            assert(s@.subrange(0, m as int)[i as int] != p@[i as int]);
            return false;
        }
        i = i + 1;
    }
    assert(s@.subrange(0, m as int) =~= p@);
    true
}

/// Whether `a` and `b` hold the same characters.
pub fn textos_iguais(a: &str, b: &str) -> (r: bool)
    ensures
        r == (a@ == b@),
{
    let n = a.unicode_len();
    let m = b.unicode_len();
    if n != m {
        return false;
    }
    let mut i: usize = 0;
    while i < n
        invariant
            i <= n,
            n == a@.len(),
            m == b@.len(),
            n == m,
            forall|k: int| 0 <= k < i ==> a@[k] == b@[k],
        decreases n - i,
    {
        if a.get_char(i) != b.get_char(i) {
            return false;
        }
        i = i + 1;
    }
    assert(a@ =~= b@);
    true
}

/// The character of the decimal digit `d`.
pub fn char_digito(d: u64) -> (c: char)
    requires
        d < 10,
    ensures
        c == char_do_digito(d as nat),
{
    if d == 0 {
        '0'
    } else if d == 1 {
        '1'
    } else if d == 2 {
        '2'
    } else if d == 3 {
        '3'
    } else if d == 4 {
        '4'
    } else if d == 5 {
        '5'
    } else if d == 6 {
        '6'
    } else if d == 7 {
        '7'
    } else if d == 8 {
        '8'
    } else {
        '9'
    }
}

/// The decimal representation of `n`.
pub fn decimal_u64(n: u64) -> (r: String)
    ensures
        r@ == decimal(n as nat),
    decreases n,
{
    if n < 10 {
        let mut r = String::new();
        empurrar(&mut r, char_digito(n));
        assert(r@ =~= seq![char_do_digito(n as nat)]);
        r
    } else {
        let mut r = decimal_u64(n / 10);
        empurrar(&mut r, char_digito(n % 10));
        r
    }
}

/// A copy of `s` as an owned `String`.
pub fn copiar_texto(s: &str) -> (r: String)
    ensures
        r@ == s@,
{
    String::from_str(s)
}

} // verus!
