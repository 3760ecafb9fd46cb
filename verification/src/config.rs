//! The application's saved settings.
use vstd::prelude::*;
use crate::filesystem::PoliticaSobrescrita;

verus! {

/// The colour theme of the interface.
#[derive(Debug, Clone, Copy, PartialEq, Eq, Structural)]
pub enum Tema {
    Claro,
    Escuro,
}

impl Default for Tema {
    /// The dark theme.
    fn default() -> (r: Tema)
        ensures
            r == Tema::Escuro,
    {
        Tema::Escuro
    }
}

/// The saved settings: the network root folder (unset at first), what to do
/// with files that already exist, and the theme.
#[derive(Debug, Clone)]
pub struct AppConfig {
    pub pasta_raiz: Option<String>,
    pub politica_sobrescrita: PoliticaSobrescrita,
    pub tema: Tema,
}

impl Default for AppConfig {
    /// No root folder, overwrite existing files, dark theme.
    fn default() -> (r: AppConfig)
        ensures
            r.pasta_raiz is None,
            r.politica_sobrescrita == PoliticaSobrescrita::Sobrescrever,
            r.tema == Tema::Escuro,
    {
        AppConfig {
            pasta_raiz: None,
            politica_sobrescrita: PoliticaSobrescrita::Sobrescrever,
            tema: Tema::default(),
        }
    }
}

} // verus!
