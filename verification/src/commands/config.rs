//! The settings as the interface exchanges them: the policy and the theme
//! written as text.
use vstd::prelude::*;
use crate::config::{AppConfig, Tema};
use crate::filesystem::{texto_da_politica, PoliticaSobrescrita};
use crate::texto::textos_iguais;

verus! {

/// The settings with the policy and the theme as text.
#[derive(Debug)]
pub struct AppConfigDto {
    pub pasta_raiz: Option<String>,
    pub politica_sobrescrita: String,
    pub tema: String,
}

/// The text of each theme.
pub open spec fn texto_do_tema(t: Tema) -> Seq<char> {
    match t {
        Tema::Claro => "claro"@,
        Tema::Escuro => "escuro"@,
    }
}

/// The policy that a text names: `pular` and `renomear` name theirs, any
/// other text means overwrite.
pub open spec fn politica_de_texto(s: Seq<char>) -> PoliticaSobrescrita {
    if s == "pular"@ {
        PoliticaSobrescrita::Pular
    } else if s == "renomear"@ {
        PoliticaSobrescrita::RenomearComSufixo
    } else {
        PoliticaSobrescrita::Sobrescrever
    }
}

/// The theme that a text names: `claro` is the light theme, any other text
/// the dark one.
pub open spec fn tema_de_texto(s: Seq<char>) -> Tema {
    if s == "claro"@ {
        Tema::Claro
    } else {
        Tema::Escuro
    }
}

impl AppConfigDto {
    /// The settings written for the interface.
    pub fn from(c: AppConfig) -> (r: AppConfigDto)
        ensures
            r.pasta_raiz == c.pasta_raiz,
            r.politica_sobrescrita@ == texto_da_politica(c.politica_sobrescrita),
            r.tema@ == texto_do_tema(c.tema),
    {
        let politica_sobrescrita = match c.politica_sobrescrita {
            PoliticaSobrescrita::Sobrescrever => String::from_str("sobrescrever"),
            PoliticaSobrescrita::Pular => String::from_str("pular"),
            PoliticaSobrescrita::RenomearComSufixo => String::from_str("renomear"),
        };
        let tema = match c.tema {
            Tema::Claro => String::from_str("claro"),
            Tema::Escuro => String::from_str("escuro"),
        };
        AppConfigDto { pasta_raiz: c.pasta_raiz, politica_sobrescrita, tema }
    }
}

impl AppConfig {
    /// The settings that the interface sent; unknown texts fall back to
    /// overwriting and to the dark theme.
    pub fn from(dto: AppConfigDto) -> (r: AppConfig)
        ensures
            r.pasta_raiz == dto.pasta_raiz,
            r.politica_sobrescrita == politica_de_texto(dto.politica_sobrescrita@),
            r.tema == tema_de_texto(dto.tema@),
    {
        let politica_sobrescrita = if textos_iguais(dto.politica_sobrescrita.as_str(), "pular") {
            PoliticaSobrescrita::Pular
        } else if textos_iguais(dto.politica_sobrescrita.as_str(), "renomear") {
            PoliticaSobrescrita::RenomearComSufixo
        } else {
            PoliticaSobrescrita::Sobrescrever
        };
        let tema = if textos_iguais(dto.tema.as_str(), "claro") {
            Tema::Claro
        } else {
            Tema::Escuro
        };
        AppConfig { pasta_raiz: dto.pasta_raiz, politica_sobrescrita, tema }
    }
}

/// The texts of the three policies are distinct, so each text names one
/// policy: writing a policy as text and reading it back gives it again, and
/// the text is the one that `PoliticaSobrescrita::from_str` accepts for it.
pub proof fn lei_politica_ida_volta(p: PoliticaSobrescrita)
    ensures
        politica_de_texto(texto_da_politica(p)) == p,
        (texto_da_politica(p) == "sobrescrever"@) == (p == PoliticaSobrescrita::Sobrescrever),
        (texto_da_politica(p) == "pular"@) == (p == PoliticaSobrescrita::Pular),
        (texto_da_politica(p) == "renomear"@) == (p == PoliticaSobrescrita::RenomearComSufixo),
{
    reveal_strlit("sobrescrever");
    reveal_strlit("pular");
    reveal_strlit("renomear");
    assert("sobrescrever"@.len() == 12);
    assert("pular"@.len() == 5);
    assert("renomear"@.len() == 8);
}

/// Writing a theme as text and reading it back gives it again.
pub proof fn lei_tema_ida_volta(t: Tema)
    ensures
        tema_de_texto(texto_do_tema(t)) == t,
{
    reveal_strlit("claro");
    reveal_strlit("escuro");
    assert("claro"@.len() == 5);
    assert("escuro"@.len() == 6);
}

/// Sending the settings to the interface and back changes nothing.
pub proof fn lei_config_ida_volta(c: AppConfig, dto: AppConfigDto)
    requires
        dto.pasta_raiz == c.pasta_raiz,
        dto.politica_sobrescrita@ == texto_da_politica(c.politica_sobrescrita),
        dto.tema@ == texto_do_tema(c.tema),
    ensures
        dto.pasta_raiz == c.pasta_raiz,
        politica_de_texto(dto.politica_sobrescrita@) == c.politica_sobrescrita,
        tema_de_texto(dto.tema@) == c.tema,
{
    lei_politica_ida_volta(c.politica_sobrescrita);
    lei_tema_ida_volta(c.tema);
}

/// The policy text that a round trip through the settings leaves: a known
/// text stays, any other becomes `sobrescrever`.
pub open spec fn politica_normalizada(s: Seq<char>) -> Seq<char> {
    if s == "pular"@ || s == "renomear"@ || s == "sobrescrever"@ {
        s
    } else {
        "sobrescrever"@
    }
}

/// The theme text that a round trip through the settings leaves: a known
/// text stays, any other becomes `escuro`.
pub open spec fn tema_normalizado(s: Seq<char>) -> Seq<char> {
    if s == "claro"@ || s == "escuro"@ {
        s
    } else {
        "escuro"@
    }
}

/// Reading settings sent by the interface and writing them back keeps the
/// root folder, keeps a known policy and theme text, and turns an unknown
/// policy into `sobrescrever` and an unknown theme into `escuro`.
pub proof fn lei_dto_ida_volta(dto: AppConfigDto, c: AppConfig, volta: AppConfigDto)
    requires
        c.pasta_raiz == dto.pasta_raiz,
        c.politica_sobrescrita == politica_de_texto(dto.politica_sobrescrita@),
        c.tema == tema_de_texto(dto.tema@),
        volta.pasta_raiz == c.pasta_raiz,
        volta.politica_sobrescrita@ == texto_da_politica(c.politica_sobrescrita),
        volta.tema@ == texto_do_tema(c.tema),
    ensures
        volta.pasta_raiz == dto.pasta_raiz,
        volta.politica_sobrescrita@ == politica_normalizada(dto.politica_sobrescrita@),
        volta.tema@ == tema_normalizado(dto.tema@),
{
}

} // verus!
