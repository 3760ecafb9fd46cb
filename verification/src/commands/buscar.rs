//! The answer of a registration-number search, which copies the service
//! member's folder into the downloads folder.
use vstd::prelude::*;

verus! {

/// The outcome of a search.
#[derive(Debug)]
pub struct BuscaResult {
    /// `sucesso` when the folder was copied, `ja_existe` when a copy was
    /// already there and nothing was copied.
    pub status: String,
    pub path_destino: Option<String>,
    pub arquivos_copiados: usize,
    pub ja_existe: bool,
}

impl BuscaResult {
    /// The answer when the copy already exists at `path_destino`: nothing is
    /// copied and the caller may ask to replace it.
    pub fn ja_existente(path_destino: String) -> (r: BuscaResult)
        ensures
            r.status@ == "ja_existe"@,
            r.path_destino == Some(path_destino),
            r.arquivos_copiados == 0,
            r.ja_existe,
    {
        BuscaResult {
            status: String::from_str("ja_existe"),
            path_destino: Some(path_destino),
            arquivos_copiados: 0,
            ja_existe: true,
        }
    }

    /// The answer when the folder was copied to `path_destino`.
    pub fn sucesso(path_destino: String, arquivos_copiados: usize) -> (r: BuscaResult)
        ensures
            r.status@ == "sucesso"@,
            r.path_destino == Some(path_destino),
            r.arquivos_copiados == arquivos_copiados,
            !r.ja_existe,
    {
        BuscaResult {
            status: String::from_str("sucesso"),
            path_destino: Some(path_destino),
            arquivos_copiados,
            ja_existe: false,
        }
    }
}

/// What a search does once it knows whether the copy already exists.
#[derive(Debug, Clone, Copy, PartialEq, Eq, Structural)]
pub enum PassoBusca {
    /// Answer that the copy exists, copying nothing.
    ResponderJaExiste,
    /// Copy the folder.
    Copiar,
    /// Remove the existing copy, then copy the folder again.
    ApagarECopiar,
}

/// Decides a search: with no copy at the destination, copy; with one, answer
/// that it exists, unless the user confirmed the replacement, in which case
/// remove it and copy again. Only a confirmed search removes anything.
pub fn decidir_busca(destino_existe: bool, confirmado: bool) -> (r: PassoBusca)
    ensures
        !destino_existe ==> r == PassoBusca::Copiar,
        destino_existe && !confirmado ==> r == PassoBusca::ResponderJaExiste,
        destino_existe && confirmado ==> r == PassoBusca::ApagarECopiar,
{
    if !destino_existe {
        PassoBusca::Copiar
    } else if confirmado {
        PassoBusca::ApagarECopiar
    } else {
        PassoBusca::ResponderJaExiste
    }
}

/// The message when no folder matches the registration number as typed.
pub fn mensagem_militar_nao_encontrado(matricula: &str) -> (r: String)
    ensures
        r@ == "Militar não encontrado: "@ + matricula@,
{
    let mut r = String::from_str("Militar não encontrado: ");
    r.append(matricula);
    r
}

} // verus!
