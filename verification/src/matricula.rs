//! Registration numbers ("matrículas"): parsing and normalisation.
use vstd::prelude::*;
use crate::errors::AppError;
use crate::texto::{
    aparar, aparar_texto, eh_digito, eh_espaco, empurrar, lemma_aparar_identidade,
    sem_espacos_fim, sem_espacos_inicio,
    lemma_sem_hifen_concat, lemma_sem_hifen_digitos, lemma_sem_hifen_sem_hifen, remover_hifens,
    sem_hifen, so_digitos, todos_digitos,
};

verus! {

/// A parsed registration number.
#[derive(Debug, Clone)]
pub struct Matricula {
    /// The digits alone, e.g. `1111111`.
    pub digitos: String,
    /// The digits with a hyphen before the last one, e.g. `111111-1`.
    pub com_hifen: String,
    /// The network sub-folder of the number, e.g. `LEV PM 111`.
    pub subpasta: String,
}

// ---------------------------------------------------------------------------
// Specification
// ---------------------------------------------------------------------------

/// The digits that an input denotes: trimmed, hyphens removed.
pub open spec fn digitos_de(entrada: Seq<char>) -> Seq<char> {
    sem_hifen(aparar(entrada))
}

/// The hyphenated form of the digits `d`: the hyphen stands between the
/// second-to-last and the last digit.
pub open spec fn com_hifen_de(d: Seq<char>) -> Seq<char> {
    d.drop_last().push('-').push(d.last())
}

/// The leading digits that name the sub-folder: all but the last four, or
/// all of them when there are at most four.
pub open spec fn prefixo_subpasta(d: Seq<char>) -> Seq<char> {
    if d.len() > 4 {
        d.subrange(0, d.len() - 4)
    } else {
        d
    }
}

/// The sub-folder of the digits `d`.
pub open spec fn subpasta_de(d: Seq<char>) -> Seq<char> {
    "LEV PM "@ + prefixo_subpasta(d)
}

/// The message with which an input is refused, or `None` when it is accepted.
pub open spec fn erro_parse(entrada: Seq<char>) -> Option<Seq<char>> {
    let t = aparar(entrada);
    let d = sem_hifen(t);
    if t.len() == 0 {
        Some("Entrada vazia"@)
    } else if !so_digitos(d) {
        Some("Matrícula deve conter apenas números"@)
    } else if d.len() < 3 {
        Some("Matrícula deve ter pelo menos 3 dígitos"@)
    } else if d.len() > 8 {
        Some("Matrícula deve ter no máximo 8 dígitos"@)
    } else {
        None
    }
}

/// The three texts of the registration number with digits `d`.
pub open spec fn modelo_de(d: Seq<char>) -> (Seq<char>, Seq<char>, Seq<char>) {
    (d, com_hifen_de(d), subpasta_de(d))
}

/// What parsing `entrada` gives: the three texts, or the refusal message.
pub open spec fn resultado_parse(entrada: Seq<char>) -> Result<
    (Seq<char>, Seq<char>, Seq<char>),
    Seq<char>,
> {
    match erro_parse(entrada) {
        Some(msg) => Err(msg),
        None => Ok(modelo_de(digitos_de(entrada))),
    }
}

impl Matricula {
    /// The three texts of this registration number.
    pub open spec fn modelo(&self) -> (Seq<char>, Seq<char>, Seq<char>) {
        (self.digitos@, self.com_hifen@, self.subpasta@)
    }

    /// This value is what parsing some input gives: 3 to 8 digits and the
    /// two texts derived from them.
    pub open spec fn valida(&self) -> bool {
        &&& so_digitos(self.digitos@)
        &&& 3 <= self.digitos@.len() <= 8
        &&& self.modelo() == modelo_de(self.digitos@)
    }

    /// Parses a registration number, written with or without its hyphen.
    ///
    /// Surrounding whitespace is ignored and every hyphen is dropped; what
    /// remains must be 3 to 8 ASCII digits. The hyphenated form always puts
    /// the hyphen before the last digit.
    pub fn parse(input: &str) -> (r: Result<Matricula, AppError>)
        ensures
            match r {
                Ok(m) => resultado_parse(input@) == Ok::<_, Seq<char>>(m.modelo()) && m.valida()
                    && forall|i: int|
                    0 <= i < m.digitos@.len() ==> '0' <= #[trigger] m.digitos@[i] && m.digitos@[i]
                        <= '9',
                Err(e) => e matches AppError::MatriculaInvalida(s) && resultado_parse(input@) == Err::<
                    (Seq<char>, Seq<char>, Seq<char>),
                    _,
                >(s@),
            },
    {
        let input = aparar_texto(input);

        if input.unicode_len() == 0 {
            return Err(AppError::MatriculaInvalida(String::from_str("Entrada vazia")));
        }
        let digitos = remover_hifens(input);

        if !todos_digitos(digitos.as_str()) {
            return Err(
                AppError::MatriculaInvalida(
                    String::from_str("Matrícula deve conter apenas números"),
                ),
            );
        }
        let n = digitos.as_str().unicode_len();
        if n < 3 {
            return Err(
                AppError::MatriculaInvalida(
                    String::from_str("Matrícula deve ter pelo menos 3 dígitos"),
                ),
            );
        }
        if n > 8 {
            return Err(
                AppError::MatriculaInvalida(
                    String::from_str("Matrícula deve ter no máximo 8 dígitos"),
                ),
            );
        }
        let ghost d = digitos@;

        let mut com_hifen = String::from_str(digitos.as_str().substring_char(0, n - 1));
        empurrar(&mut com_hifen, '-');
        empurrar(&mut com_hifen, digitos.as_str().get_char(n - 1));
        assert(d.subrange(0, n - 1) =~= d.drop_last());

        let mut subpasta = String::from_str("LEV PM ");
        if n > 4 {
            subpasta.append(digitos.as_str().substring_char(0, n - 4));
        } else {
            subpasta.append(digitos.as_str());
        }

        assert forall|i: int| 0 <= i < d.len() implies '0' <= #[trigger] d[i] && d[i] <= '9' by {
            assert(eh_digito(d[i]));
        }
        Ok(Matricula { digitos, com_hifen, subpasta })
    }
}

// ---------------------------------------------------------------------------
// Laws
// ---------------------------------------------------------------------------

/// The hyphenated form of a digit string is unchanged by trimming, and
/// removing its hyphen gives the digits back.
pub proof fn lemma_com_hifen_digitos(d: Seq<char>)
    requires
        so_digitos(d),
        d.len() >= 2,
    ensures
        aparar(com_hifen_de(d)) == com_hifen_de(d),
        sem_hifen(com_hifen_de(d)) == d,
{
    let h = com_hifen_de(d);
    assert(eh_digito(d[0]));
    assert(eh_digito(d.last()));
    assert(h[0] == d[0]);
    assert(h.last() == d.last());
    lemma_aparar_identidade(h);
    let a = d.drop_last();
    assert(so_digitos(a)) by {
        assert forall|i: int| 0 <= i < a.len() implies #[trigger] eh_digito(a[i]) by {
            assert(a[i] == d[i]);
        }
    }
    lemma_sem_hifen_digitos(a);
    assert(h =~= a + seq!['-'] + seq![d.last()]);
    lemma_sem_hifen_concat(a + seq!['-'], seq![d.last()]);
    lemma_sem_hifen_concat(a, seq!['-']);
    assert(seq!['-'].drop_last() =~= Seq::<char>::empty());
    assert(sem_hifen(Seq::<char>::empty()) =~= Seq::<char>::empty());
    assert(sem_hifen(seq!['-']) =~= Seq::<char>::empty());
    assert(seq![d.last()].drop_last() =~= Seq::<char>::empty());
    assert(sem_hifen(seq![d.last()]) =~= seq![d.last()]);
    assert(a + Seq::<char>::empty() + seq![d.last()] =~= d);
}

/// A digit string is unchanged by trimming and by hyphen removal.
pub proof fn lemma_digitos_normais(d: Seq<char>)
    requires
        so_digitos(d),
    ensures
        aparar(d) == d,
        sem_hifen(d) == d,
{
    if d.len() > 0 {
        assert(eh_digito(d[0]));
        assert(eh_digito(d.last()));
    }
    lemma_aparar_identidade(d);
    lemma_sem_hifen_digitos(d);
}

/// Hyphens do not matter: two inputs that denote the same digits are
/// parsed alike, so `1111111` and `111111-1` give the same registration
/// number.
pub proof fn lei_hifen_indiferente(a: Seq<char>, b: Seq<char>)
    requires
        digitos_de(a) == digitos_de(b),
        resultado_parse(a) is Ok,
    ensures
        resultado_parse(b) == resultado_parse(a),
{
    lemma_sem_hifen_sem_hifen(aparar(b));
}

/// The normal forms parse back to the same registration number: parsing
/// its digits, or its hyphenated form, gives the registration number again.
pub proof fn lei_formas_normais(m: Matricula)
    requires
        m.valida(),
    ensures
        resultado_parse(m.digitos@) == Ok::<_, Seq<char>>(m.modelo()),
        resultado_parse(m.com_hifen@) == Ok::<_, Seq<char>>(m.modelo()),
{
    let d = m.digitos@;
    lemma_digitos_normais(d);
    lemma_com_hifen_digitos(d);
}

/// Only `'0'`..`'9'` are digits: the digits of an accepted number are all
/// between `'0'` and `'9'`, and an input that, trimmed and without hyphens,
/// holds any other character is refused.
pub proof fn lei_so_algarismos(entrada: Seq<char>)
    ensures
        resultado_parse(entrada) matches Ok(t) ==> forall|i: int|
            0 <= i < t.0.len() ==> '0' <= #[trigger] t.0[i] && t.0[i] <= '9',
        (exists|i: int|
            0 <= i < digitos_de(entrada).len() && !('0' <= #[trigger] digitos_de(entrada)[i]
                && digitos_de(entrada)[i] <= '9')) ==> resultado_parse(entrada) is Err,
{
    let d = digitos_de(entrada);
    if resultado_parse(entrada) is Ok {
        assert forall|i: int| 0 <= i < d.len() implies '0' <= #[trigger] d[i] && d[i] <= '9' by {
            assert(eh_digito(d[i]));
        }
    }
}

/// The hyphenated form has the digits with one hyphen before the last one.
pub proof fn lei_forma_do_hifen(m: Matricula)
    requires
        m.valida(),
    ensures
        m.com_hifen@.len() == m.digitos@.len() + 1,
        m.com_hifen@[m.com_hifen@.len() - 2] == '-',
        m.com_hifen@.last() == m.digitos@.last(),
        m.com_hifen@.subrange(0, m.digitos@.len() - 1) == m.digitos@.subrange(
            0,
            m.digitos@.len() - 1,
        ),
{
    let d = m.digitos@;
    assert(m.com_hifen@.subrange(0, d.len() - 1) =~= d.subrange(0, d.len() - 1));
}

/// The sub-folder is `LEV PM ` followed by the digits without their last
/// four, or by all the digits when there are at most four.
pub proof fn lei_subpasta(m: Matricula)
    requires
        m.valida(),
    ensures
        m.digitos@.len() > 4 ==> m.subpasta@ == "LEV PM "@ + m.digitos@.subrange(
            0,
            m.digitos@.len() - 4,
        ),
        m.digitos@.len() <= 4 ==> m.subpasta@ == "LEV PM "@ + m.digitos@,
{
}

/// Trailing whitespace is dropped once leading whitespace is gone.
proof fn lemma_aparar_fim(x: Seq<char>, w: char)
    requires
        eh_espaco(w),
    ensures
        sem_espacos_fim(sem_espacos_inicio(x.push(w))) == sem_espacos_fim(sem_espacos_inicio(x)),
    decreases x.len(),
{
    if x.len() == 0 {
        assert(x.push(w).drop_first() =~= Seq::<char>::empty());
        assert(sem_espacos_inicio(Seq::<char>::empty()) == Seq::<char>::empty());
        assert(sem_espacos_inicio(x.push(w)) == Seq::<char>::empty());
        assert(x =~= Seq::<char>::empty());
    } else if eh_espaco(x[0]) {
        assert(x.push(w).drop_first() =~= x.drop_first().push(w));
        assert(x.push(w)[0] == x[0]);
        lemma_aparar_fim(x.drop_first(), w);
    } else {
        assert(x.push(w)[0] == x[0]);
        assert(sem_espacos_inicio(x.push(w)) == x.push(w));
        assert(sem_espacos_inicio(x) == x);
        assert(x.push(w).drop_last() =~= x);
        assert(x.push(w).last() == w);
    }
}

/// Blanks around the number do not matter: a space, tab, carriage return or
/// newline before or after the input changes nothing.
pub proof fn lei_espacos_indiferentes(x: Seq<char>, w: char)
    requires
        w == ' ' || w == '\t' || w == '\n' || w == '\r',
    ensures
        resultado_parse(seq![w] + x) == resultado_parse(x),
        resultado_parse(x.push(w)) == resultado_parse(x),
{
    assert((seq![w] + x).drop_first() =~= x);
    lemma_aparar_fim(x, w);
}

} // verus!
