//! The application's error type and the message each error shows.
use vstd::prelude::*;

verus! {

/// Every failure the application reports.
#[derive(Debug)]
pub enum AppError {
    MatriculaInvalida(String),
    SubpastaInexistente(String),
    MilitarNaoEncontrado(String),
    ErroDeIO { path: String, fonte: String },
    PastaRaizNaoConfigurada,
    PastaDestinoInvalida(String),
    ArquivoNaoEncontrado(String),
    ErroDeSerializacao(String),
}

impl AppError {
    /// The text shown for this error.
    pub open spec fn texto(&self) -> Seq<char> {
        match self {
            AppError::MatriculaInvalida(s) => "Matrícula inválida: "@ + s@,
            AppError::SubpastaInexistente(s) => "Subpasta inexistente: "@ + s@,
            AppError::MilitarNaoEncontrado(s) => "Militar não encontrado: "@ + s@,
            AppError::ErroDeIO { path, fonte } => "Erro de E/S em "@ + path@ + ": "@ + fonte@,
            AppError::PastaRaizNaoConfigurada => "Pasta raiz não configurada"@,
            AppError::PastaDestinoInvalida(s) => "Pasta destino inválida: "@ + s@,
            AppError::ArquivoNaoEncontrado(s) => "Arquivo não encontrado: "@ + s@,
            AppError::ErroDeSerializacao(s) => "Erro de serialização: "@ + s@,
        }
    }

    /// The message of this error, as the user sees it.
    pub fn mensagem(&self) -> (r: String)
        ensures
            r@ == self.texto(),
    {
        match self {
            AppError::MatriculaInvalida(s) => {
                let mut r = String::from_str("Matrícula inválida: ");
                r.append(s.as_str());
                r
            },
            AppError::SubpastaInexistente(s) => {
                let mut r = String::from_str("Subpasta inexistente: ");
                r.append(s.as_str());
                r
            },
            AppError::MilitarNaoEncontrado(s) => {
                let mut r = String::from_str("Militar não encontrado: ");
                r.append(s.as_str());
                r
            },
            AppError::ErroDeIO { path, fonte } => {
                let mut r = String::from_str("Erro de E/S em ");
                r.append(path.as_str());
                r.append(": ");
                r.append(fonte.as_str());
                r
            },
            AppError::PastaRaizNaoConfigurada => String::from_str("Pasta raiz não configurada"),
            AppError::PastaDestinoInvalida(s) => {
                let mut r = String::from_str("Pasta destino inválida: ");
                r.append(s.as_str());
                r
            },
            AppError::ArquivoNaoEncontrado(s) => {
                let mut r = String::from_str("Arquivo não encontrado: ");
                r.append(s.as_str());
                r
            },
            AppError::ErroDeSerializacao(s) => {
                let mut r = String::from_str("Erro de serialização: ");
                r.append(s.as_str());
                r
            },
        }
    }

    /// The error for a failed input/output operation that names no path:
    /// `fonte` is the description of the underlying failure.
    pub fn de_io(fonte: String) -> (r: AppError)
        ensures
            r matches AppError::ErroDeIO { path, fonte: f } && path@.len() == 0 && f@ == fonte@,
    {
        AppError::ErroDeIO { path: String::new(), fonte }
    }
}

} // verus!
