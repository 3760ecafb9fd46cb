//! Sending a document to many destinations.
//!
//! The caller reads the file once, then drives an `EnvioEmAndamento`: each
//! step says which disk operation to perform next (look a service member's
//! folder up, check that a folder exists, write the file), and the caller
//! hands back what it found. Every destination ends in exactly one entry of
//! the report, in order; a failure never stops the destinations after it.
use vstd::prelude::*;
use crate::errors::AppError;
use crate::filesystem::{
    lei_separar_reconstroi, lemma_sem_ponto, lemma_ultimo_ponto_em, separar_extensao,
    split_file_stem_ext, PoliticaSobrescrita,
};
use crate::matricula::{resultado_parse, Matricula};
use crate::texto::{
    copiar_texto, decimal, decimal_u64, empurrar, lemma_decimal_digitos, remover_hifens,
    sem_hifen, so_digitos, todos_digitos,
};

verus! {

/// A parsed registration number, as the interface shows it.
#[derive(Debug)]
pub struct MatriculaInfo {
    pub digitos: String,
    pub com_hifen: String,
    pub subpasta: String,
}

impl From<Matricula> for MatriculaInfo {
    fn from(m: Matricula) -> (r: MatriculaInfo) {
        MatriculaInfo { digitos: m.digitos, com_hifen: m.com_hifen, subpasta: m.subpasta }
    }
}

impl vstd::std_specs::convert::FromSpecImpl<Matricula> for MatriculaInfo {
    open spec fn obeys_from_spec() -> bool {
        true
    }

    open spec fn from_spec(m: Matricula) -> MatriculaInfo {
        MatriculaInfo { digitos: m.digitos, com_hifen: m.com_hifen, subpasta: m.subpasta }
    }
}

/// Whether a service member's folder exists, and where.
#[derive(Debug)]
pub struct VerificacaoResult {
    pub existe: bool,
    pub path: Option<String>,
}

/// The outcome of sending to one destination.
#[derive(Debug)]
pub struct DetalheEnvio {
    pub destino: String,
    pub sucesso: bool,
    pub erro: Option<String>,
}

/// The outcome of a whole send.
#[derive(Debug)]
pub struct EnvioRelatorio {
    pub total: usize,
    pub sucesso: usize,
    pub falha: usize,
    pub detalhes: Vec<DetalheEnvio>,
}

/// Where a send stands with the current destination.
#[derive(Debug, Clone, Copy, PartialEq, Eq, Structural)]
pub enum Etapa {
    /// Ready to start on the current destination (or to finish).
    Pronto,
    /// Waiting for the lookup of a service member's folder.
    AguardandoBusca,
    /// Waiting to learn whether a folder given as a path exists.
    AguardandoVerificacao,
    /// Waiting for the file to be written.
    AguardandoCopia,
}

/// What the caller found, handed back to the send.
#[derive(Debug)]
pub enum Evento {
    /// Go on (at the start, and after each registered outcome).
    Prosseguir,
    /// The folder lookup gave this: the folder's path, none, or an error.
    BuscaConcluida(Result<Option<String>, AppError>),
    /// Whether the path exists and is a directory.
    VerificacaoConcluida(bool),
    /// The file was written, or this error stopped it.
    CopiaConcluida(Result<(), AppError>),
}

/// What the caller must do next.
#[derive(Debug)]
pub enum Acao {
    /// Look up, across the root's sub-folders, the folder of this number.
    BuscarMilitar(Matricula),
    /// Check that this path exists and is a directory.
    VerificarPasta(String),
    /// Write the file into this folder.
    Copiar(String),
    /// Nothing to do on disk: send `Evento::Prosseguir`.
    Prosseguir,
    /// Every destination is done: take the report.
    Concluir,
}

/// One step of a send: the next action, and the outcome just registered,
/// if any, for the caller to announce.
#[derive(Debug)]
pub struct Passo {
    pub acao: Acao,
    pub detalhe: Option<DetalheEnvio>,
}

/// A send in progress.
pub struct EnvioEmAndamento {
    destinos: Vec<String>,
    atual: usize,
    etapa: Etapa,
    relatorio: EnvioRelatorio,
}

// ---------------------------------------------------------------------------
// Specification
// ---------------------------------------------------------------------------

/// A destination looks like a registration number when, without its
/// hyphens, it is a non-empty run of ASCII digits.
pub open spec fn parece_matricula_spec(destino: Seq<char>) -> bool {
    sem_hifen(destino).len() > 0 && so_digitos(sem_hifen(destino))
}

/// The new name of sent data under the renaming policy:
/// `{stem}_{timestamp}.{extension}`, or `{stem}_{timestamp}` without extension.
pub open spec fn nome_renomeado_dados(nome: Seq<char>, instante: nat) -> Seq<char> {
    let (stem, ext) = separar_extensao(nome);
    if ext.len() == 0 {
        stem.push('_') + decimal(instante)
    } else {
        (stem.push('_') + decimal(instante)).push('.') + ext
    }
}

/// The name under which sent data is written, or `None` when nothing is.
pub open spec fn destino_dados(
    existe: bool,
    politica: PoliticaSobrescrita,
    nome: Seq<char>,
    instante: nat,
) -> Option<Seq<char>> {
    if !existe {
        Some(nome)
    } else {
        match politica {
            PoliticaSobrescrita::Pular => None,
            PoliticaSobrescrita::RenomearComSufixo => Some(nome_renomeado_dados(nome, instante)),
            PoliticaSobrescrita::Sobrescrever => Some(nome),
        }
    }
}

/// The outcome of one destination as values: destination, success, error.
pub type ModeloDetalhe = (Seq<char>, bool, Option<Seq<char>>);

/// How many outcomes are successes.
pub open spec fn conta_sucessos(ds: Seq<ModeloDetalhe>) -> nat
    decreases ds.len(),
{
    if ds.len() == 0 {
        0
    } else {
        conta_sucessos(ds.drop_last()) + if ds.last().1 {
            1nat
        } else {
            0nat
        }
    }
}

/// The error of a destination whose folder was not found.
pub open spec fn erro_militar_nao_encontrado(destino: Seq<char>) -> Seq<char> {
    "Militar não encontrado para matrícula: "@ + destino + ". Crie a pasta antes de enviar."@
}

/// The error of a destination path that is not an existing folder.
pub open spec fn erro_pasta_inexistente(destino: Seq<char>) -> Seq<char> {
    "Pasta de destino não existe: "@ + destino
}

impl DetalheEnvio {
    /// This outcome as values.
    pub open spec fn modelo(&self) -> ModeloDetalhe {
        (
            self.destino@,
            self.sucesso,
            match self.erro {
                Some(e) => Some(e@),
                None => None,
            },
        )
    }
}

impl EnvioRelatorio {
    /// The outcomes as values, in order.
    pub open spec fn detalhes_modelo(&self) -> Seq<ModeloDetalhe> {
        self.detalhes@.map_values(|d: DetalheEnvio| d.modelo())
    }

    /// The report holds one outcome for each of the first `feitos`
    /// destinations, in order, out of `destinos`, and its counts agree with
    /// the outcomes.
    pub open spec fn cobre(&self, destinos: Seq<Seq<char>>, feitos: nat) -> bool {
        &&& self.total == destinos.len()
        &&& self.detalhes@.len() == feitos
        &&& feitos <= destinos.len()
        &&& forall|i: int| 0 <= i < feitos ==> #[trigger] self.detalhes@[i].destino@ == destinos[i]
        &&& self.sucesso + self.falha == feitos
        &&& self.sucesso == conta_sucessos(self.detalhes_modelo())
        &&& forall|i: int|
            0 <= i < feitos ==> (#[trigger] self.detalhes@[i].sucesso <==> self.detalhes@[i].erro is None)
    }
}

impl EnvioEmAndamento {
    /// The destinations, as text.
    pub closed spec fn destinos_modelo(&self) -> Seq<Seq<char>> {
        self.destinos@.map_values(|s: String| s@)
    }

    /// How many destinations are done.
    pub closed spec fn feitos(&self) -> nat {
        self.atual as nat
    }

    /// Where the current destination stands.
    pub closed spec fn etapa_atual(&self) -> Etapa {
        self.etapa
    }

    /// The report so far.
    pub closed spec fn relatorio_atual(&self) -> EnvioRelatorio {
        self.relatorio
    }

    /// The send is consistent: its report covers the destinations done, and
    /// a destination is only awaited while one remains.
    pub closed spec fn inv(&self) -> bool {
        &&& self.atual <= self.destinos@.len()
        &&& self.relatorio.cobre(self.destinos_modelo(), self.atual as nat)
        &&& self.etapa != Etapa::Pronto ==> self.atual < self.destinos@.len()
    }

    /// Every destination is done and nothing is awaited.
    pub open spec fn terminado(&self) -> bool {
        self.etapa_atual() == Etapa::Pronto && self.feitos() == self.destinos_modelo().len()
    }

    /// The event that the current stage waits for.
    pub open spec fn aceita(&self, evento: Evento) -> bool {
        match self.etapa_atual() {
            Etapa::Pronto => evento is Prosseguir,
            Etapa::AguardandoBusca => evento is BuscaConcluida,
            Etapa::AguardandoVerificacao => evento is VerificacaoConcluida,
            Etapa::AguardandoCopia => evento is CopiaConcluida,
        }
    }

    /// A measure that every step but the last one lowers.
    pub open spec fn medida(&self) -> nat {
        let rank: nat = match self.etapa_atual() {
            Etapa::Pronto => 3,
            Etapa::AguardandoBusca => 2,
            Etapa::AguardandoVerificacao => 2,
            Etapa::AguardandoCopia => 1,
        };
        4 * ((self.destinos_modelo().len() - self.feitos()) as nat) + rank
    }

    /// The current destination was registered with this outcome and the
    /// send moved to the next destination.
    pub open spec fn registrou(
        antes: EnvioEmAndamento,
        depois: EnvioEmAndamento,
        passo: Passo,
        sucesso: bool,
        erro: Option<Seq<char>>,
    ) -> bool {
        let det: ModeloDetalhe = (antes.destinos_modelo()[antes.feitos() as int], sucesso, erro);
        &&& depois.feitos() == antes.feitos() + 1
        &&& depois.etapa_atual() == Etapa::Pronto
        &&& depois.relatorio_atual().detalhes_modelo() == antes.relatorio_atual().detalhes_modelo().push(
            det,
        )
        &&& depois.relatorio_atual().sucesso == antes.relatorio_atual().sucesso + if sucesso {
            1int
        } else {
            0int
        }
        &&& depois.relatorio_atual().falha == antes.relatorio_atual().falha + if sucesso {
            0int
        } else {
            1int
        }
        &&& passo.acao is Prosseguir
        &&& passo.detalhe matches Some(x) && x.modelo() == det
    }

    /// The send moved to stage `etapa` of the same destination, with the
    /// report untouched and nothing to announce.
    pub open spec fn aguarda(
        antes: EnvioEmAndamento,
        depois: EnvioEmAndamento,
        passo: Passo,
        etapa: Etapa,
    ) -> bool {
        &&& depois.feitos() == antes.feitos()
        &&& depois.etapa_atual() == etapa
        &&& depois.relatorio_atual().detalhes_modelo() == antes.relatorio_atual().detalhes_modelo()
        &&& depois.relatorio_atual().sucesso == antes.relatorio_atual().sucesso
        &&& depois.relatorio_atual().falha == antes.relatorio_atual().falha
        &&& passo.detalhe is None
    }

    /// One step of a send, from `antes` on `evento` to `depois`, answering `passo`.
    pub open spec fn transicao(
        antes: EnvioEmAndamento,
        evento: Evento,
        depois: EnvioEmAndamento,
        passo: Passo,
    ) -> bool {
        let d = antes.destinos_modelo()[antes.feitos() as int];
        match antes.etapa_atual() {
            Etapa::Pronto => if antes.feitos() == antes.destinos_modelo().len() {
                &&& passo.acao is Concluir
                &&& Self::aguarda(antes, depois, passo, Etapa::Pronto)
            } else if parece_matricula_spec(d) {
                match resultado_parse(d) {
                    Ok(modelo) => {
                        &&& Self::aguarda(antes, depois, passo, Etapa::AguardandoBusca)
                        &&& passo.acao matches Acao::BuscarMilitar(m) && m.modelo() == modelo
                            && m.valida()
                    },
                    Err(msg) => Self::registrou(
                        antes,
                        depois,
                        passo,
                        false,
                        Some("Matrícula inválida: "@ + msg),
                    ),
                }
            } else {
                &&& Self::aguarda(antes, depois, passo, Etapa::AguardandoVerificacao)
                &&& passo.acao matches Acao::VerificarPasta(p) && p@ == d
            },
            Etapa::AguardandoBusca => match evento {
                Evento::BuscaConcluida(Ok(Some(pasta))) => {
                    &&& Self::aguarda(antes, depois, passo, Etapa::AguardandoCopia)
                    &&& passo.acao matches Acao::Copiar(p) && p@ == pasta@
                },
                Evento::BuscaConcluida(Ok(None)) => Self::registrou(
                    antes,
                    depois,
                    passo,
                    false,
                    Some(erro_militar_nao_encontrado(d)),
                ),
                Evento::BuscaConcluida(Err(e)) => Self::registrou(
                    antes,
                    depois,
                    passo,
                    false,
                    Some(e.texto()),
                ),
                _ => false,
            },
            Etapa::AguardandoVerificacao => match evento {
                Evento::VerificacaoConcluida(true) => {
                    &&& Self::aguarda(antes, depois, passo, Etapa::AguardandoCopia)
                    &&& passo.acao matches Acao::Copiar(p) && p@ == d
                },
                Evento::VerificacaoConcluida(false) => Self::registrou(
                    antes,
                    depois,
                    passo,
                    false,
                    Some(erro_pasta_inexistente(d)),
                ),
                _ => false,
            },
            Etapa::AguardandoCopia => match evento {
                Evento::CopiaConcluida(Ok(())) => Self::registrou(antes, depois, passo, true, None),
                Evento::CopiaConcluida(Err(e)) => Self::registrou(
                    antes,
                    depois,
                    passo,
                    false,
                    Some(e.texto()),
                ),
                _ => false,
            },
        }
    }
}

// ---------------------------------------------------------------------------
// Lemmas and laws
// ---------------------------------------------------------------------------

proof fn lemma_conta_sucessos_push(ds: Seq<ModeloDetalhe>, x: ModeloDetalhe)
    ensures
        conta_sucessos(ds.push(x)) == conta_sucessos(ds) + if x.1 {
            1nat
        } else {
            0nat
        },
{
    assert(ds.push(x).drop_last() =~= ds);
}

/// At most all outcomes are successes.
pub proof fn lemma_conta_sucessos_limite(ds: Seq<ModeloDetalhe>)
    ensures
        conta_sucessos(ds) <= ds.len(),
    decreases ds.len(),
{
    if ds.len() > 0 {
        lemma_conta_sucessos_limite(ds.drop_last());
    }
}

/// A finished send reports on every destination: as many outcomes as
/// destinations, each at its destination's position, successes and
/// failures adding up to the total, the successes being the outcomes
/// marked as such, and an outcome being a success exactly when it carries
/// no error.
pub proof fn lei_relatorio_completo(r: EnvioRelatorio, destinos: Seq<Seq<char>>)
    requires
        r.cobre(destinos, destinos.len()),
    ensures
        r.total == destinos.len(),
        r.detalhes@.len() == r.total,
        r.sucesso + r.falha == r.total,
        r.sucesso == conta_sucessos(r.detalhes_modelo()),
        r.sucesso <= r.total,
        forall|i: int| 0 <= i < destinos.len() ==> #[trigger] r.detalhes@[i].destino@ == destinos[i],
        forall|i: int|
            0 <= i < destinos.len() ==> (#[trigger] r.detalhes@[i].sucesso <==> r.detalhes@[i].erro is None),
{
    lemma_conta_sucessos_limite(r.detalhes_modelo());
}

/// The renaming policy never writes over the existing file: the new name
/// is longer than the file's own name.
pub proof fn lei_renomear_dados_preserva_existente(nome: Seq<char>, instante: nat)
    ensures
        destino_dados(true, PoliticaSobrescrita::RenomearComSufixo, nome, instante) matches Some(
            novo,
        ) && novo.len() > nome.len() && novo != nome,
{
    lei_separar_reconstroi(nome);
    lemma_decimal_digitos(instante);
}

/// Renaming sent data keeps the file name up to the last `'.'`, then puts
/// `_` and the time in decimal, then the `'.'` and the extension; a name
/// that ends in its only trailing `'.'` loses that `'.'`.
pub proof fn lei_renomear_formato_dados(nome: Seq<char>, instante: nat, p: int)
    requires
        0 < p < nome.len(),
        nome[p] == '.',
        forall|k: int| p < k < nome.len() ==> nome[k] != '.',
    ensures
        p < nome.len() - 1 ==> destino_dados(
            true,
            PoliticaSobrescrita::RenomearComSufixo,
            nome,
            instante,
        ) == Some(nome.subrange(0, p) + seq!['_'] + decimal(instante) + nome.subrange(p, nome.len() as int)),
        p == nome.len() - 1 ==> destino_dados(
            true,
            PoliticaSobrescrita::RenomearComSufixo,
            nome,
            instante,
        ) == Some(nome.subrange(0, p) + seq!['_'] + decimal(instante)),
{
    lemma_ultimo_ponto_em(nome, p);
    let (stem, ext) = separar_extensao(nome);
    assert(nome.subrange(p, nome.len() as int) =~= seq!['.'] + ext);
    assert((stem.push('_') + decimal(instante)).push('.') + ext =~= stem + seq!['_'] + decimal(
        instante,
    ) + (seq!['.'] + ext));
    assert(stem.push('_') + decimal(instante) =~= stem + seq!['_'] + decimal(instante));
}

/// Renaming sent data without extension appends `_` and the time in
/// decimal to its name.
pub proof fn lei_renomear_sem_extensao_dados(nome: Seq<char>, instante: nat)
    requires
        forall|k: int| 0 < k < nome.len() ==> nome[k] != '.',
    ensures
        destino_dados(true, PoliticaSobrescrita::RenomearComSufixo, nome, instante) == Some(
            nome + seq!['_'] + decimal(instante),
        ),
{
    lemma_sem_ponto(nome);
    assert(nome.push('_') + decimal(instante) =~= nome + seq!['_'] + decimal(instante));
}

/// What each policy does to sent data: with no file of that name in the
/// destination folder, the data is written under the file's own name
/// whatever the policy; with one there, `Pular` writes nothing,
/// `Sobrescrever` writes under the same name, and `RenomearComSufixo` writes
/// under a longer, different name.
pub proof fn lei_politicas_dados(
    existe: bool,
    politica: PoliticaSobrescrita,
    nome: Seq<char>,
    instante: nat,
)
    ensures
        !existe ==> destino_dados(existe, politica, nome, instante) == Some(nome),
        existe && politica == PoliticaSobrescrita::Pular ==> destino_dados(
            existe,
            politica,
            nome,
            instante,
        ) is None,
        existe && politica == PoliticaSobrescrita::Sobrescrever ==> destino_dados(
            existe,
            politica,
            nome,
            instante,
        ) == Some(nome),
        existe && politica == PoliticaSobrescrita::RenomearComSufixo ==> (destino_dados(
            existe,
            politica,
            nome,
            instante,
        ) matches Some(novo) && novo.len() > nome.len()),
{
    lei_renomear_dados_preserva_existente(nome, instante);
}

// ---------------------------------------------------------------------------
// Executable functions
// ---------------------------------------------------------------------------

/// Parses a registration number for the interface; a refusal is given as
/// the error's message.
pub fn adicionar_matricula(matricula: String) -> (r: Result<MatriculaInfo, String>)
    ensures
        match r {
            Ok(info) => resultado_parse(matricula@) == Ok::<_, Seq<char>>(
                (info.digitos@, info.com_hifen@, info.subpasta@),
            ),
            Err(msg) => resultado_parse(matricula@) matches Err(m) && msg@ == "Matrícula inválida: "@
                + m,
        },
{
    match Matricula::parse(matricula.as_str()) {
        Ok(m) => Ok(MatriculaInfo::from(m)),
        Err(e) => Err(e.mensagem()),
    }
}

/// The answer to "does this service member's folder exist?", given what the
/// folder lookup found.
pub fn resultado_verificacao(busca: Result<Option<String>, AppError>) -> (r: Result<
    VerificacaoResult,
    String,
>)
    ensures
        match busca {
            Ok(Some(p)) => r matches Ok(v) && v.existe && v.path == Some(p),
            Ok(None) => r matches Ok(v) && !v.existe && v.path is None,
            Err(e) => r matches Err(msg) && msg@ == e.texto(),
        },
{
    match busca {
        Ok(Some(p)) => Ok(VerificacaoResult { existe: true, path: Some(p) }),
        Ok(None) => Ok(VerificacaoResult { existe: false, path: None }),
        Err(e) => Err(e.mensagem()),
    }
}

/// Whether a destination looks like a registration number (digits and
/// optional hyphens) rather than a folder path.
pub fn parece_matricula(destino: &str) -> (r: bool)
    ensures
        r == parece_matricula_spec(destino@),
{
    let sem_hifen = remover_hifens(destino);
    sem_hifen.as_str().unicode_len() > 0 && todos_digitos(sem_hifen.as_str())
}

/// Splits a file name into stem and extension at its last `'.'`.
pub fn split_nome_ext(nome: &str) -> (r: (String, String))
    ensures
        r.0@ == separar_extensao(nome@).0,
        r.1@ == separar_extensao(nome@).1,
{
    split_file_stem_ext(nome)
}

/// The name under which sent data is written into a destination folder, or
/// `None` when nothing is written.
///
/// When no file of that name exists there, it is the file's own name. When
/// one exists: `Pular` writes nothing, `Sobrescrever` writes over it, and
/// `RenomearComSufixo` writes `{stem}_{instante}.{extension}` (without the
/// `.` when there is no extension).
pub fn destino_copia_dados(
    existe: bool,
    politica: PoliticaSobrescrita,
    nome_arquivo: &str,
    instante: u64,
) -> (r: Option<String>)
    ensures
        match r {
            Some(s) => destino_dados(existe, politica, nome_arquivo@, instante as nat) == Some(s@),
            None => destino_dados(existe, politica, nome_arquivo@, instante as nat) is None,
        },
        !existe ==> (r matches Some(s) && s@ == nome_arquivo@),
        existe && politica == PoliticaSobrescrita::Pular ==> r is None,
        existe && politica == PoliticaSobrescrita::Sobrescrever ==> (r matches Some(s) && s@
            == nome_arquivo@),
        existe && politica == PoliticaSobrescrita::RenomearComSufixo ==> (r matches Some(s) && s@.len()
            > nome_arquivo@.len()),
{
    proof {
        lei_politicas_dados(existe, politica, nome_arquivo@, instante as nat);
    }
    if existe {
        match politica {
            PoliticaSobrescrita::Pular => { return None; },
            PoliticaSobrescrita::RenomearComSufixo => {
                let (stem, ext) = split_nome_ext(nome_arquivo);
                let mut novo = stem;
                empurrar(&mut novo, '_');
                let ts = decimal_u64(instante);
                novo.append(ts.as_str());
                if ext.as_str().unicode_len() > 0 {
                    empurrar(&mut novo, '.');
                    novo.append(ext.as_str());
                }
                return Some(novo);
            },
            PoliticaSobrescrita::Sobrescrever => {},
        }
    }
    Some(copiar_texto(nome_arquivo))
}

impl EnvioEmAndamento {
    /// Starts sending to `destinos`, in order; the report counts them all.
    pub fn iniciar(destinos: Vec<String>) -> (r: EnvioEmAndamento)
        ensures
            r.inv(),
            r.destinos_modelo() == destinos@.map_values(|s: String| s@),
            r.feitos() == 0,
            r.etapa_atual() == Etapa::Pronto,
    {
        let total = destinos.len();
        let r = EnvioEmAndamento {
            destinos,
            atual: 0,
            etapa: Etapa::Pronto,
            relatorio: EnvioRelatorio { total, sucesso: 0, falha: 0, detalhes: Vec::new() },
        };
        assert(r.relatorio.detalhes_modelo() =~= Seq::<ModeloDetalhe>::empty());
        r
    }

    /// Whether the current stage waits for `evento`.
    pub fn espera(&self, evento: &Evento) -> (r: bool)
        ensures
            r == self.aceita(*evento),
    {
        match self.etapa {
            Etapa::Pronto => matches!(evento, Evento::Prosseguir),
            Etapa::AguardandoBusca => matches!(evento, Evento::BuscaConcluida(_)),
            Etapa::AguardandoVerificacao => matches!(evento, Evento::VerificacaoConcluida(_)),
            Etapa::AguardandoCopia => matches!(evento, Evento::CopiaConcluida(_)),
        }
    }

    /// Registers the outcome of the current destination and moves on.
    fn registrar(&mut self, sucesso: bool, erro: Option<String>) -> (passo: Passo)
        requires
            old(self).inv(),
            old(self).atual < old(self).destinos@.len(),
            sucesso <==> erro is None,
        ensures
            final(self).inv(),
            final(self).destinos == old(self).destinos,
            Self::registrou(
                *old(self),
                *final(self),
                passo,
                sucesso,
                match erro {
                    Some(e) => Some(e@),
                    None => None,
                },
            ),
    {
        let ghost antes = *self;
        let destino = copiar_texto(self.destinos[self.atual].as_str());
        let destino_aviso = copiar_texto(self.destinos[self.atual].as_str());
        let erro_aviso = match &erro {
            Some(e) => Some(copiar_texto(e.as_str())),
            None => None,
        };
        let detalhe = DetalheEnvio { destino, sucesso, erro };
        let aviso = DetalheEnvio { destino: destino_aviso, sucesso, erro: erro_aviso };
        let ghost det = detalhe.modelo();
        proof {
            lemma_conta_sucessos_push(self.relatorio.detalhes_modelo(), det);
            lemma_conta_sucessos_limite(self.relatorio.detalhes_modelo());
        }
        self.relatorio.detalhes.push(detalhe);
        if sucesso {
            self.relatorio.sucesso = self.relatorio.sucesso + 1;
        } else {
            self.relatorio.falha = self.relatorio.falha + 1;
        }
        self.atual = self.atual + 1;
        self.etapa = Etapa::Pronto;
        assert(self.relatorio.detalhes_modelo() =~= antes.relatorio.detalhes_modelo().push(det));
        assert(self.destinos_modelo() == antes.destinos_modelo());
        assert forall|i: int| 0 <= i < self.atual implies #[trigger] self.relatorio.detalhes@[i].destino@
            == self.destinos_modelo()[i] by {
            if i < antes.atual {
                assert(self.relatorio.detalhes@[i] == antes.relatorio.detalhes@[i]);
            }
        }
        assert forall|i: int| 0 <= i < self.atual implies (#[trigger] self.relatorio.detalhes@[
            i].sucesso <==> self.relatorio.detalhes@[i].erro is None) by {
            if i < antes.atual {
                assert(self.relatorio.detalhes@[i] == antes.relatorio.detalhes@[i]);
            }
        }
        Passo { acao: Acao::Prosseguir, detalhe: Some(aviso) }
    }

    /// Takes one step: given what the caller found for the action asked
    /// last (or `Prosseguir`), registers any outcome and says what to do next.
    ///
    /// A destination that looks like a registration number is parsed (a
    /// refusal fails it) and its folder looked up (not found, or an error,
    /// fails it); any other destination must be an existing folder. The file
    /// is then written there, and the write's result is the outcome.
    pub fn avancar(&mut self, evento: Evento) -> (passo: Passo)
        requires
            old(self).inv(),
            old(self).aceita(evento),
        ensures
            final(self).inv(),
            final(self).destinos_modelo() == old(self).destinos_modelo(),
            Self::transicao(*old(self), evento, *final(self), passo),
            passo.acao is Concluir <==> old(self).terminado(),
            passo.acao is Concluir ==> final(self).terminado(),
            !(passo.acao is Concluir) ==> final(self).medida() < old(self).medida(),
    {
        let ghost antes = *self;
        match evento {
            Evento::Prosseguir => {
                if self.atual == self.destinos.len() {
                    return Passo { acao: Acao::Concluir, detalhe: None };
                }
                let e = self.atual;
                if parece_matricula(self.destinos[e].as_str()) {
                    match Matricula::parse(self.destinos[e].as_str()) {
                        Ok(m) => {
                            self.etapa = Etapa::AguardandoBusca;
                            Passo { acao: Acao::BuscarMilitar(m), detalhe: None }
                        },
                        Err(erro) => {
                            let msg = erro.mensagem();
                            self.registrar(false, Some(msg))
                        },
                    }
                } else {
                    let caminho = copiar_texto(self.destinos[e].as_str());
                    self.etapa = Etapa::AguardandoVerificacao;
                    Passo { acao: Acao::VerificarPasta(caminho), detalhe: None }
                }
            },
            Evento::BuscaConcluida(Ok(Some(pasta))) => {
                self.etapa = Etapa::AguardandoCopia;
                Passo { acao: Acao::Copiar(pasta), detalhe: None }
            },
            Evento::BuscaConcluida(Ok(None)) => {
                let mut msg = String::from_str("Militar não encontrado para matrícula: ");
                msg.append(self.destinos[self.atual].as_str());
                msg.append(". Crie a pasta antes de enviar.");
                self.registrar(false, Some(msg))
            },
            Evento::BuscaConcluida(Err(e)) => {
                let msg = e.mensagem();
                self.registrar(false, Some(msg))
            },
            Evento::VerificacaoConcluida(existe) => {
                if existe {
                    let caminho = copiar_texto(self.destinos[self.atual].as_str());
                    self.etapa = Etapa::AguardandoCopia;
                    Passo { acao: Acao::Copiar(caminho), detalhe: None }
                } else {
                    let mut msg = String::from_str("Pasta de destino não existe: ");
                    msg.append(self.destinos[self.atual].as_str());
                    self.registrar(false, Some(msg))
                }
            },
            Evento::CopiaConcluida(Ok(())) => self.registrar(true, None),
            Evento::CopiaConcluida(Err(e)) => {
                let msg = e.mensagem();
                self.registrar(false, Some(msg))
            },
        }
    }

    /// Ends a finished send with its report, which covers every destination.
    pub fn concluir(self) -> (r: EnvioRelatorio)
        requires
            self.inv(),
            self.terminado(),
        ensures
            r.cobre(self.destinos_modelo(), self.destinos_modelo().len()),
            r.detalhes_modelo() == self.relatorio_atual().detalhes_modelo(),
    {
        self.relatorio
    }
}

} // verus!
