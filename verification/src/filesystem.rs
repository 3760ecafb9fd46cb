//! Folder rules: the name of a service member's folder, which folder a
//! registration number finds, where a copied file goes under each overwrite
//! policy, and the counts of a recursive copy. The reading and writing of
//! the disk itself is done by the caller, which hands these functions what
//! it found there.
use vstd::prelude::*;
use crate::errors::AppError;
use crate::matricula::Matricula;
use crate::texto::{
    aparar, aparar_texto, comeca_com, copiar_texto, decimal, decimal_u64, empurrar,
    lemma_sem_hifen_concat, lemma_sem_hifen_digitos, maiusculas, maiusculas_unicode,
    comeca_com_texto, remover_hifens, sem_hifen, textos_iguais,
};

verus! {

/// What to do when the file already exists at the destination.
#[derive(Debug, Clone, Copy, PartialEq, Eq, Structural)]
pub enum PoliticaSobrescrita {
    Sobrescrever,
    Pular,
    RenomearComSufixo,
}

/// The counts of a recursive folder copy.
#[derive(Debug, Clone, Copy)]
pub struct CopyStats {
    pub arquivos_copiados: usize,
    pub bytes_copiados: u64,
}

/// One entry of a folder listing: its name and whether it is a directory
/// (`None` when the system could not say).
#[derive(Debug)]
pub struct EntradaPasta {
    pub nome: String,
    pub e_dir: Option<bool>,
}

// ---------------------------------------------------------------------------
// Specification
// ---------------------------------------------------------------------------

/// The text of each overwrite policy.
pub open spec fn texto_da_politica(p: PoliticaSobrescrita) -> Seq<char> {
    match p {
        PoliticaSobrescrita::Sobrescrever => "sobrescrever"@,
        PoliticaSobrescrita::Pular => "pular"@,
        PoliticaSobrescrita::RenomearComSufixo => "renomear"@,
    }
}

/// A folder name matches a registration number (digits `d`, hyphenated form
/// `h`) when it starts with the digits or with the hyphenated form, or when,
/// once its hyphens are removed, it starts with the digits.
pub open spec fn nome_corresponde(nome: Seq<char>, d: Seq<char>, h: Seq<char>) -> bool {
    ||| comeca_com(nome, d)
    ||| comeca_com(nome, h)
    ||| comeca_com(sem_hifen(nome), d)
}

/// An entry whose name matches `m`: the lookup must learn its type.
pub open spec fn candidata(e: EntradaPasta, m: Matricula) -> bool {
    nome_corresponde(e.nome@, m.digitos@, m.com_hifen@)
}

/// An entry that the lookup for `m` accepts: a directory whose name matches.
pub open spec fn escolhivel(e: EntradaPasta, m: Matricula) -> bool {
    candidata(e, m) && e.e_dir == Some(true)
}

/// An entry that ends the lookup for `m`: a matching name whose type is a
/// directory or could not be read.
pub open spec fn decisiva(e: EntradaPasta, m: Matricula) -> bool {
    candidata(e, m) && e.e_dir != Some(false)
}

/// The folder name of a service member: `{hyphenated number} - {NAME}`,
/// the name being given already uppercased.
pub open spec fn nome_pasta(com_hifen: Seq<char>, nome_maiusculo: Seq<char>) -> Seq<char> {
    com_hifen + " - "@ + nome_maiusculo
}

/// The index of the last `'.'` of `s`, or -1.
pub open spec fn ultimo_ponto(s: Seq<char>) -> int
    decreases s.len(),
{
    if s.len() == 0 {
        -1
    } else if s.last() == '.' {
        s.len() - 1
    } else {
        ultimo_ponto(s.drop_last())
    }
}

/// A file name split into stem and extension at its last `'.'`; a name
/// with no `'.'`, or whose only `'.'` leads it, has no extension.
pub open spec fn separar_extensao(s: Seq<char>) -> (Seq<char>, Seq<char>) {
    let p = ultimo_ponto(s);
    if p > 0 {
        (s.subrange(0, p), s.subrange(p + 1, s.len() as int))
    } else {
        (s, Seq::<char>::empty())
    }
}

/// The new name of a file copied under the renaming policy:
/// `{stem}_{timestamp}.{extension}`.
pub open spec fn nome_renomeado_arquivo(nome: Seq<char>, instante: nat) -> Seq<char> {
    let (stem, ext) = separar_extensao(nome);
    (stem.push('_') + decimal(instante)).push('.') + ext
}

/// The name under which `copiar_arquivo` writes the file, or `None` when it
/// writes nothing.
pub open spec fn destino_arquivo(
    existe: bool,
    politica: PoliticaSobrescrita,
    nome: Seq<char>,
    instante: nat,
) -> Option<Seq<char>> {
    if !existe {
        Some(nome)
    } else {
        match politica {
            PoliticaSobrescrita::Pular => None,
            PoliticaSobrescrita::RenomearComSufixo => Some(nome_renomeado_arquivo(nome, instante)),
            PoliticaSobrescrita::Sobrescrever => Some(nome),
        }
    }
}

// ---------------------------------------------------------------------------
// Lemmas
// ---------------------------------------------------------------------------

/// A sequence starts with any of its prefixes.
pub proof fn lemma_comeca_com_concat(x: Seq<char>, y: Seq<char>)
    ensures
        comeca_com(x + y, x),
{
    assert((x + y).subrange(0, x.len() as int) =~= x);
}

/// `ultimo_ponto` is an index of a `'.'` with none after it, or -1.
pub proof fn lemma_ultimo_ponto(s: Seq<char>)
    ensures
        -1 <= ultimo_ponto(s) < s.len(),
        ultimo_ponto(s) >= 0 ==> s[ultimo_ponto(s)] == '.',
        forall|k: int| ultimo_ponto(s) < k < s.len() ==> s[k] != '.',
    decreases s.len(),
{
    if s.len() > 0 && s.last() != '.' {
        let t = s.drop_last();
        lemma_ultimo_ponto(t);
        assert forall|k: int| ultimo_ponto(s) < k < s.len() implies s[k] != '.' by {
            if k < t.len() {
                assert(s[k] == t[k]);
            }
        }
    }
}

/// Splitting loses nothing: the stem, a `'.'` and the extension make the
/// name again when the name has an extension.
pub proof fn lei_separar_reconstroi(s: Seq<char>)
    ensures
        ultimo_ponto(s) > 0 ==> separar_extensao(s).0.push('.') + separar_extensao(s).1 == s,
        ultimo_ponto(s) <= 0 ==> separar_extensao(s).0 == s && separar_extensao(s).1.len() == 0,
        separar_extensao(s).0.len() + separar_extensao(s).1.len() + (if ultimo_ponto(s) > 0 {
            1int
        } else {
            0int
        }) == s.len(),
{
    lemma_ultimo_ponto(s);
    let p = ultimo_ponto(s);
    if p > 0 {
        assert(s.subrange(0, p).push('.') + s.subrange(p + 1, s.len() as int) =~= s);
    }
}

/// Matching depends on the digits alone: a folder name matches a parsed
/// registration number exactly when, without its hyphens, it starts with
/// the digits. So a folder is found by the number with or without hyphen.
pub proof fn lei_busca_por_digitos(m: Matricula, nome: Seq<char>)
    requires
        m.valida(),
    ensures
        nome_corresponde(nome, m.digitos@, m.com_hifen@) == comeca_com(sem_hifen(nome), m.digitos@),
{
    let d = m.digitos@;
    let h = m.com_hifen@;
    crate::matricula::lemma_com_hifen_digitos(d);
    if comeca_com(nome, d) {
        let resto = nome.subrange(d.len() as int, nome.len() as int);
        assert(nome =~= d + resto);
        lemma_sem_hifen_concat(d, resto);
        lemma_sem_hifen_digitos(d);
        lemma_comeca_com_concat(d, sem_hifen(resto));
    }
    if comeca_com(nome, h) {
        let resto = nome.subrange(h.len() as int, nome.len() as int);
        assert(nome =~= h + resto);
        lemma_sem_hifen_concat(h, resto);
        lemma_comeca_com_concat(d, sem_hifen(resto));
    }
}

/// The folder made for a service member is the one that its registration
/// number finds: whatever the name, the folder name matches the number.
pub proof fn lei_pasta_criada_corresponde(m: Matricula, nome_maiusculo: Seq<char>)
    requires
        m.valida(),
    ensures
        nome_corresponde(nome_pasta(m.com_hifen@, nome_maiusculo), m.digitos@, m.com_hifen@),
{
    assert(nome_pasta(m.com_hifen@, nome_maiusculo) =~= m.com_hifen@ + (" - "@ + nome_maiusculo));
    lemma_comeca_com_concat(m.com_hifen@, " - "@ + nome_maiusculo);
}

/// The renaming policy never writes over the file that is already there:
/// the new name is longer than the file's own name.
pub proof fn lei_renomear_preserva_existente(nome: Seq<char>, instante: nat)
    ensures
        destino_arquivo(true, PoliticaSobrescrita::RenomearComSufixo, nome, instante) matches Some(
            novo,
        ) && novo.len() > nome.len() && novo != nome,
{
    lei_separar_reconstroi(nome);
    crate::texto::lemma_decimal_digitos(instante);
}

/// The last `'.'` of a name is found: a `'.'` with none after it is the last
/// one, and with no `'.'` past the first character there is no extension.
pub proof fn lemma_ultimo_ponto_em(nome: Seq<char>, p: int)
    requires
        0 <= p < nome.len(),
        nome[p] == '.',
        forall|k: int| p < k < nome.len() ==> nome[k] != '.',
    ensures
        ultimo_ponto(nome) == p,
{
    lemma_ultimo_ponto(nome);
}

/// With no `'.'` past the first character, a name has no extension.
pub proof fn lemma_sem_ponto(nome: Seq<char>)
    requires
        forall|k: int| 0 < k < nome.len() ==> nome[k] != '.',
    ensures
        ultimo_ponto(nome) <= 0,
{
    lemma_ultimo_ponto(nome);
}

/// Renaming a copied file keeps its name up to the last `'.'`, then puts
/// `_` and the time in decimal, then the `'.'` and the extension.
pub proof fn lei_renomear_formato_arquivo(nome: Seq<char>, instante: nat, p: int)
    requires
        0 < p < nome.len(),
        nome[p] == '.',
        forall|k: int| p < k < nome.len() ==> nome[k] != '.',
    ensures
        destino_arquivo(true, PoliticaSobrescrita::RenomearComSufixo, nome, instante) == Some(
            nome.subrange(0, p) + seq!['_'] + decimal(instante) + nome.subrange(p, nome.len() as int),
        ),
{
    lemma_ultimo_ponto_em(nome, p);
    let (stem, ext) = separar_extensao(nome);
    assert(nome.subrange(p, nome.len() as int) =~= seq!['.'] + ext);
    assert((stem.push('_') + decimal(instante)).push('.') + ext =~= stem + seq!['_'] + decimal(
        instante,
    ) + (seq!['.'] + ext));
}

/// Renaming a copied file without extension appends `_`, the time in
/// decimal and a `'.'` to its name.
pub proof fn lei_renomear_sem_extensao_arquivo(nome: Seq<char>, instante: nat)
    requires
        forall|k: int| 0 < k < nome.len() ==> nome[k] != '.',
    ensures
        destino_arquivo(true, PoliticaSobrescrita::RenomearComSufixo, nome, instante) == Some(
            nome + seq!['_'] + decimal(instante) + seq!['.'],
        ),
{
    lemma_sem_ponto(nome);
    assert((nome.push('_') + decimal(instante)).push('.') + Seq::<char>::empty() =~= nome + seq![
        '_',
    ] + decimal(instante) + seq!['.']);
}

/// What each policy does to a copied file: with no file of that name at the
/// destination, the file is written under its own name whatever the policy;
/// with one there, `Pular` writes nothing, `Sobrescrever` writes under the
/// same name, and `RenomearComSufixo` writes under a longer, different name.
pub proof fn lei_politicas_arquivo(
    existe: bool,
    politica: PoliticaSobrescrita,
    nome: Seq<char>,
    instante: nat,
)
    ensures
        !existe ==> destino_arquivo(existe, politica, nome, instante) == Some(nome),
        existe && politica == PoliticaSobrescrita::Pular ==> destino_arquivo(
            existe,
            politica,
            nome,
            instante,
        ) is None,
        existe && politica == PoliticaSobrescrita::Sobrescrever ==> destino_arquivo(
            existe,
            politica,
            nome,
            instante,
        ) == Some(nome),
        existe && politica == PoliticaSobrescrita::RenomearComSufixo ==> (destino_arquivo(
            existe,
            politica,
            nome,
            instante,
        ) matches Some(novo) && novo.len() > nome.len()),
{
    lei_renomear_preserva_existente(nome, instante);
}

// ---------------------------------------------------------------------------
// Executable functions
// ---------------------------------------------------------------------------

impl PoliticaSobrescrita {
    /// Reads an overwrite policy from its text: `sobrescrever`, `pular` or
    /// `renomear`; any other text is refused.
    pub fn from_str(s: &str) -> (r: Result<PoliticaSobrescrita, AppError>)
        ensures
            s@ == "sobrescrever"@ ==> r == Ok::<_, AppError>(PoliticaSobrescrita::Sobrescrever),
            s@ != "sobrescrever"@ && s@ == "pular"@ ==> r == Ok::<_, AppError>(
                PoliticaSobrescrita::Pular,
            ),
            s@ != "sobrescrever"@ && s@ != "pular"@ && s@ == "renomear"@ ==> r == Ok::<
                _,
                AppError,
            >(PoliticaSobrescrita::RenomearComSufixo),
            s@ != "sobrescrever"@ && s@ != "pular"@ && s@ != "renomear"@ ==> (r matches Err(
                AppError::ErroDeSerializacao(msg),
            ) && msg@ == "Política de sobrescrita inválida: "@ + s@),
    {
        if textos_iguais(s, "sobrescrever") {
            Ok(PoliticaSobrescrita::Sobrescrever)
        } else if textos_iguais(s, "pular") {
            Ok(PoliticaSobrescrita::Pular)
        } else if textos_iguais(s, "renomear") {
            Ok(PoliticaSobrescrita::RenomearComSufixo)
        } else {
            let mut msg = String::from_str("Política de sobrescrita inválida: ");
            msg.append(s);
            Err(AppError::ErroDeSerializacao(msg))
        }
    }
}

impl CopyStats {
    /// Counts of a copy that has copied nothing yet.
    pub fn vazio() -> (r: CopyStats)
        ensures
            r.arquivos_copiados == 0,
            r.bytes_copiados == 0,
    {
        CopyStats { arquivos_copiados: 0, bytes_copiados: 0 }
    }

    /// Counts one more copied file of `bytes` bytes.
    pub fn registrar_arquivo(&mut self, bytes: u64)
        requires
            old(self).arquivos_copiados < usize::MAX,
            old(self).bytes_copiados + bytes <= u64::MAX,
        ensures
            final(self).arquivos_copiados == old(self).arquivos_copiados + 1,
            final(self).bytes_copiados == old(self).bytes_copiados + bytes,
    {
        self.arquivos_copiados = self.arquivos_copiados + 1;
        self.bytes_copiados = self.bytes_copiados + bytes;
    }

    /// Adds the counts of a sub-folder's copy.
    pub fn acumular(&mut self, outro: &CopyStats)
        requires
            old(self).arquivos_copiados + outro.arquivos_copiados <= usize::MAX,
            old(self).bytes_copiados + outro.bytes_copiados <= u64::MAX,
        ensures
            final(self).arquivos_copiados == old(self).arquivos_copiados + outro.arquivos_copiados,
            final(self).bytes_copiados == old(self).bytes_copiados + outro.bytes_copiados,
    {
        self.arquivos_copiados = self.arquivos_copiados + outro.arquivos_copiados;
        self.bytes_copiados = self.bytes_copiados + outro.bytes_copiados;
    }
}

/// Whether the folder name `nome` matches the registration number `m`.
pub fn corresponde(nome: &str, m: &Matricula) -> (r: bool)
    ensures
        r == nome_corresponde(nome@, m.digitos@, m.com_hifen@),
{
    if comeca_com_texto(nome, m.digitos.as_str()) {
        return true;
    }
    if comeca_com_texto(nome, m.com_hifen.as_str()) {
        return true;
    }
    let sem = remover_hifens(nome);
    comeca_com_texto(sem.as_str(), m.digitos.as_str())
}

/// Finds the folder of a service member in a folder listing, in listing
/// order. Entries whose names do not match are passed over, and so are
/// matching entries that are not directories. The first matching entry
/// that is a directory is the answer (`Ok(Some(i))`); when the type of a
/// matching entry could not be read before that, the lookup fails on it
/// (`Err(i)`); with neither, the folder is not there (`Ok(None)`).
pub fn encontrar_pasta_militar(entradas: &Vec<EntradaPasta>, matricula: &Matricula) -> (r: Result<
    Option<usize>,
    usize,
>)
    ensures
        match r {
            Ok(Some(i)) => i < entradas@.len() && escolhivel(entradas@[i as int], *matricula)
                && forall|j: int| 0 <= j < i ==> !decisiva(#[trigger] entradas@[j], *matricula),
            Ok(None) => forall|j: int|
                0 <= j < entradas@.len() ==> !decisiva(#[trigger] entradas@[j], *matricula),
            Err(i) => i < entradas@.len() && candidata(entradas@[i as int], *matricula)
                && entradas@[i as int].e_dir is None && forall|j: int|
                0 <= j < i ==> !decisiva(#[trigger] entradas@[j], *matricula),
        },
{
    let n = entradas.len();
    let mut i: usize = 0;
    while i < n
        invariant
            i <= n,
            n == entradas@.len(),
            forall|j: int| 0 <= j < i ==> !decisiva(#[trigger] entradas@[j], *matricula),
        decreases n - i,
    {
        let e = &entradas[i];
        if corresponde(e.nome.as_str(), matricula) {
            match e.e_dir {
                Some(true) => { return Ok(Some(i)); },
                None => { return Err(i); },
                Some(false) => {},
            }
        }
        i = i + 1;
    }
    Ok(None)
}

/// Whether the name under which a file is copied depends on the time: only
/// when a file of that name exists and the policy renames.
pub fn usa_instante(existe: bool, politica: PoliticaSobrescrita) -> (r: bool)
    ensures
        r == (existe && politica == PoliticaSobrescrita::RenomearComSufixo),
{
    existe && politica == PoliticaSobrescrita::RenomearComSufixo
}

/// `{com_hifen} - {nome_maiusculo}`.
pub fn montar_nome_pasta(com_hifen: &str, nome_maiusculo: &str) -> (r: String)
    ensures
        r@ == nome_pasta(com_hifen@, nome_maiusculo@),
{
    let mut r = copiar_texto(com_hifen);
    r.append(" - ");
    r.append(nome_maiusculo);
    r
}

/// The folder name of a new service member: the hyphenated registration
/// number, ` - `, and the full name trimmed and uppercased.
pub fn nome_pasta_militar(matricula: &Matricula, nome_completo: &str) -> (r: String)
    ensures
        r@ == nome_pasta(matricula.com_hifen@, maiusculas_unicode(aparar(nome_completo@))),
{
    let nome = maiusculas(aparar_texto(nome_completo));
    montar_nome_pasta(matricula.com_hifen.as_str(), nome.as_str())
}

/// Splits a file name into stem and extension at its last `'.'`.
pub fn split_file_stem_ext(nome: &str) -> (r: (String, String))
    ensures
        r.0@ == separar_extensao(nome@).0,
        r.1@ == separar_extensao(nome@).1,
{
    let n = nome.unicode_len();
    let mut i: usize = n;
    assert(nome@.subrange(0, n as int) =~= nome@);
    while i > 0 && nome.get_char(i - 1) != '.'
        invariant
            i <= n,
            n == nome@.len(),
            ultimo_ponto(nome@) == ultimo_ponto(nome@.subrange(0, i as int)),
        decreases i,
    {
        assert(nome@.subrange(0, i as int).drop_last() =~= nome@.subrange(0, i - 1));
        i = i - 1;
    }
    if i > 1 {
        (copiar_texto(nome.substring_char(0, i - 1)), copiar_texto(nome.substring_char(i, n)))
    } else {
        (copiar_texto(nome), String::new())
    }
}

/// The name under which a copied file is written into the destination
/// folder, or `None` when nothing is written.
///
/// When no file of that name exists there, it is the file's own name. When
/// one exists: `Pular` writes nothing, `Sobrescrever` writes over it, and
/// `RenomearComSufixo` writes `{stem}_{instante}.{extension}`.
pub fn destino_copia_arquivo(
    existe: bool,
    politica: PoliticaSobrescrita,
    nome_arquivo: &str,
    instante: u64,
) -> (r: Option<String>)
    ensures
        match r {
            Some(s) => destino_arquivo(existe, politica, nome_arquivo@, instante as nat) == Some(
                s@,
            ),
            None => destino_arquivo(existe, politica, nome_arquivo@, instante as nat) is None,
        },
        !existe ==> (r matches Some(s) && s@ == nome_arquivo@),
        existe && politica == PoliticaSobrescrita::Pular ==> r is None,
        existe && politica == PoliticaSobrescrita::Sobrescrever ==> (r matches Some(s) && s@
            == nome_arquivo@),
        existe && politica == PoliticaSobrescrita::RenomearComSufixo ==> (r matches Some(s) && s@.len()
            > nome_arquivo@.len()),
{
    proof {
        lei_politicas_arquivo(existe, politica, nome_arquivo@, instante as nat);
    }
    if existe {
        match politica {
            PoliticaSobrescrita::Pular => { return None; },
            PoliticaSobrescrita::RenomearComSufixo => {
                let (stem, ext) = split_file_stem_ext(nome_arquivo);
                let mut novo = stem;
                empurrar(&mut novo, '_');
                let ts = decimal_u64(instante);
                novo.append(ts.as_str());
                empurrar(&mut novo, '.');
                novo.append(ext.as_str());
                return Some(novo);
            },
            PoliticaSobrescrita::Sobrescrever => {},
        }
    }
    Some(copiar_texto(nome_arquivo))
}

} // verus!
