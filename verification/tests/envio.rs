use gestor_pastas_militares::commands::buscar::{
    decidir_busca, mensagem_militar_nao_encontrado, BuscaResult, PassoBusca,
};
use gestor_pastas_militares::commands::config::AppConfigDto;
use gestor_pastas_militares::commands::enviar::{
    adicionar_matricula, destino_copia_dados, parece_matricula, resultado_verificacao,
    split_nome_ext, Acao, EnvioEmAndamento, EnvioRelatorio, Evento,
};
use gestor_pastas_militares::config::{AppConfig, Tema};
use gestor_pastas_militares::errors::AppError;
use gestor_pastas_militares::filesystem::PoliticaSobrescrita;

/// Drives a send against an imaginary disk: `pastas_militares` are the
/// folders that the lookup finds (by hyphenated number), `pastas` the paths
/// that exist, `falha_escrita` the folders where writing fails.
fn enviar(
    destinos: &[&str],
    pastas_militares: &[(&str, &str)],
    pastas: &[&str],
    falha_escrita: &[&str],
) -> (EnvioRelatorio, Vec<String>) {
    let mut envio = EnvioEmAndamento::iniciar(destinos.iter().map(|d| d.to_string()).collect());
    let mut evento = Evento::Prosseguir;
    let mut escritas = Vec::new();
    loop {
        assert!(envio.espera(&evento));
        let passo = envio.avancar(evento);
        evento = match passo.acao {
            Acao::Concluir => break,
            Acao::Prosseguir => Evento::Prosseguir,
            Acao::BuscarMilitar(m) => Evento::BuscaConcluida(Ok(pastas_militares
                .iter()
                .find(|(h, _)| *h == m.com_hifen)
                .map(|(_, p)| p.to_string()))),
            Acao::VerificarPasta(p) => Evento::VerificacaoConcluida(pastas.contains(&p.as_str())),
            Acao::Copiar(p) => {
                if falha_escrita.contains(&p.as_str()) {
                    Evento::CopiaConcluida(Err(AppError::de_io("disco cheio".to_string())))
                } else {
                    escritas.push(p);
                    Evento::CopiaConcluida(Ok(()))
                }
            }
        };
    }
    (envio.concluir(), escritas)
}

#[test]
fn test_enviar_matricula_existente() {
    let (r, escritas) = enviar(
        &["111111-1"],
        &[("111111-1", "LEV PM 111/111111-1 - FULANO DE TAL")],
        &[],
        &[],
    );
    assert_eq!(r.sucesso, 1);
    assert_eq!(escritas, vec!["LEV PM 111/111111-1 - FULANO DE TAL".to_string()]);
}

#[test]
fn test_enviar_multiplas_matriculas() {
    let (r, escritas) = enviar(
        &["111111-1", "111112-2", "777777-7"],
        &[
            ("111111-1", "LEV PM 111/111111-1 - FULANO DE TAL"),
            ("111112-2", "LEV PM 111/111112-2 - OUTRO"),
        ],
        &[],
        &[],
    );
    assert_eq!(r.total, 3);
    assert_eq!(r.sucesso, 2);
    assert_eq!(r.falha, 1);
    assert_eq!(escritas.len(), 2);
    assert_eq!(r.detalhes[2].destino, "777777-7");
    assert_eq!(
        r.detalhes[2].erro.as_deref(),
        Some("Militar não encontrado para matrícula: 777777-7. Crie a pasta antes de enviar.")
    );
}

#[test]
fn test_enviar_pasta_extra() {
    let (r, escritas) = enviar(&["/mnt/PASTA_EXTRA"], &[], &["/mnt/PASTA_EXTRA"], &[]);
    assert_eq!(r.sucesso, 1);
    assert_eq!(escritas, vec!["/mnt/PASTA_EXTRA".to_string()]);
}

#[test]
fn envio_registra_cada_destino_em_ordem() {
    let (r, escritas) = enviar(
        &["12", "/nao/existe", "1111111", "/ok", "/cheio", "abc-1"],
        &[("111111-1", "/militar")],
        &["/ok", "/cheio"],
        &["/cheio"],
    );
    assert_eq!(r.total, 6);
    assert_eq!(r.detalhes.len(), 6);
    assert_eq!(r.sucesso + r.falha, 6);
    assert_eq!(r.sucesso, 2);
    let destinos: Vec<&str> = r.detalhes.iter().map(|d| d.destino.as_str()).collect();
    assert_eq!(destinos, vec!["12", "/nao/existe", "1111111", "/ok", "/cheio", "abc-1"]);
    assert_eq!(
        r.detalhes[0].erro.as_deref(),
        Some("Matrícula inválida: Matrícula deve ter pelo menos 3 dígitos")
    );
    assert_eq!(r.detalhes[1].erro.as_deref(), Some("Pasta de destino não existe: /nao/existe"));
    assert!(r.detalhes[2].sucesso && r.detalhes[2].erro.is_none());
    assert!(r.detalhes[3].sucesso);
    assert_eq!(r.detalhes[4].erro.as_deref(), Some("Erro de E/S em : disco cheio"));
    assert_eq!(r.detalhes[5].erro.as_deref(), Some("Pasta de destino não existe: abc-1"));
    assert_eq!(escritas, vec!["/militar".to_string(), "/ok".to_string()]);
}

#[test]
fn envio_erro_na_busca_registra_falha() {
    let mut envio = EnvioEmAndamento::iniciar(vec!["111-1".to_string()]);
    let passo = envio.avancar(Evento::Prosseguir);
    assert!(matches!(passo.acao, Acao::BuscarMilitar(_)));
    assert!(passo.detalhe.is_none());
    let passo = envio.avancar(Evento::BuscaConcluida(Err(AppError::de_io("sem acesso".to_string()))));
    assert!(matches!(passo.acao, Acao::Prosseguir));
    let aviso = passo.detalhe.unwrap();
    assert_eq!(aviso.destino, "111-1");
    assert_eq!(aviso.erro.as_deref(), Some("Erro de E/S em : sem acesso"));
    assert!(matches!(envio.avancar(Evento::Prosseguir).acao, Acao::Concluir));
    let r = envio.concluir();
    assert_eq!((r.total, r.sucesso, r.falha), (1, 0, 1));
}

#[test]
fn envio_sem_destinos_conclui_logo() {
    let mut envio = EnvioEmAndamento::iniciar(Vec::new());
    assert!(matches!(envio.avancar(Evento::Prosseguir).acao, Acao::Concluir));
    let r = envio.concluir();
    assert_eq!((r.total, r.sucesso, r.falha, r.detalhes.len()), (0, 0, 0, 0));
}

#[test]
fn parece_matricula_so_digitos_e_hifens() {
    assert!(parece_matricula("111111-1"));
    assert!(parece_matricula("12"));
    assert!(!parece_matricula("-"));
    assert!(!parece_matricula(""));
    assert!(!parece_matricula("/mnt/x"));
    assert!(!parece_matricula(" 111"));
}

#[test]
fn destino_copia_dados_por_politica() {
    assert_eq!(destino_copia_dados(true, PoliticaSobrescrita::Pular, "a.txt", 3), None);
    assert_eq!(
        destino_copia_dados(true, PoliticaSobrescrita::RenomearComSufixo, "a.txt", 99),
        Some("a_99.txt".to_string())
    );
    assert_eq!(
        destino_copia_dados(true, PoliticaSobrescrita::RenomearComSufixo, "LEIAME", 99),
        Some("LEIAME_99".to_string())
    );
    assert_eq!(
        destino_copia_dados(true, PoliticaSobrescrita::Sobrescrever, "a.txt", 99),
        Some("a.txt".to_string())
    );
    assert_eq!(
        destino_copia_dados(false, PoliticaSobrescrita::RenomearComSufixo, "a.txt", 99),
        Some("a.txt".to_string())
    );
    assert_eq!(split_nome_ext("x.tar.gz"), ("x.tar".to_string(), "gz".to_string()));
}

#[test]
fn adicionar_matricula_resultado() {
    let info = adicionar_matricula("9207901".to_string()).unwrap();
    assert_eq!(info.digitos, "9207901");
    assert_eq!(info.com_hifen, "920790-1");
    assert_eq!(info.subpasta, "LEV PM 920");
    assert_eq!(
        adicionar_matricula("12a".to_string()).unwrap_err(),
        "Matrícula inválida: Matrícula deve conter apenas números"
    );
}

#[test]
fn verificacao_de_pasta() {
    let v = resultado_verificacao(Ok(Some("/z/LEV PM 111/x".to_string()))).unwrap();
    assert!(v.existe);
    assert_eq!(v.path.as_deref(), Some("/z/LEV PM 111/x"));
    let v = resultado_verificacao(Ok(None)).unwrap();
    assert!(!v.existe && v.path.is_none());
    assert_eq!(
        resultado_verificacao(Err(AppError::de_io("x".to_string()))).unwrap_err(),
        "Erro de E/S em : x"
    );
}

#[test]
fn resultados_de_busca() {
    let r = BuscaResult::ja_existente("/d/111-1".to_string());
    assert_eq!(r.status, "ja_existe");
    assert!(r.ja_existe);
    assert_eq!(r.arquivos_copiados, 0);
    let r = BuscaResult::sucesso("/d/111-1".to_string(), 4);
    assert_eq!(r.status, "sucesso");
    assert!(!r.ja_existe);
    assert_eq!(r.arquivos_copiados, 4);
    assert_eq!(r.path_destino.as_deref(), Some("/d/111-1"));
    assert_eq!(mensagem_militar_nao_encontrado("1111111"), "Militar não encontrado: 1111111");
}

#[test]
fn configuracao_padrao() {
    let c = AppConfig::default();
    assert!(c.pasta_raiz.is_none());
    assert_eq!(c.politica_sobrescrita, PoliticaSobrescrita::Sobrescrever);
    assert_eq!(c.tema, Tema::Escuro);
    assert_eq!(Tema::default(), Tema::Escuro);
}

#[test]
fn configuracao_ida_e_volta() {
    for politica in [
        PoliticaSobrescrita::Sobrescrever,
        PoliticaSobrescrita::Pular,
        PoliticaSobrescrita::RenomearComSufixo,
    ] {
        for tema in [Tema::Claro, Tema::Escuro] {
            let c = AppConfig { pasta_raiz: Some("Z:\\".to_string()), politica_sobrescrita: politica, tema };
            let dto = AppConfigDto::from(c);
            assert_eq!(PoliticaSobrescrita::from_str(&dto.politica_sobrescrita).unwrap(), politica);
            let volta = AppConfig::from(dto);
            assert_eq!(volta.pasta_raiz.as_deref(), Some("Z:\\"));
            assert_eq!(volta.politica_sobrescrita, politica);
            assert_eq!(volta.tema, tema);
        }
    }
}

#[test]
fn configuracao_textos() {
    let dto = AppConfigDto::from(AppConfig::default());
    assert_eq!(dto.politica_sobrescrita, "sobrescrever");
    assert_eq!(dto.tema, "escuro");
    let c = AppConfig::from(AppConfigDto {
        pasta_raiz: None,
        politica_sobrescrita: "qualquer".to_string(),
        tema: "azul".to_string(),
    });
    assert_eq!(c.politica_sobrescrita, PoliticaSobrescrita::Sobrescrever);
    assert_eq!(c.tema, Tema::Escuro);
}

/// Checks that a root folder is configured before anything is sent.
fn validar_pasta_raiz(raiz: Option<&str>) -> Result<std::path::PathBuf, AppError> {
    match raiz {
        Some(path) if !path.is_empty() => Ok(std::path::PathBuf::from(path)),
        _ => Err(AppError::PastaRaizNaoConfigurada),
    }
}

#[test]
fn test_enviar_sem_pasta_raiz() {
    let resultado_none = validar_pasta_raiz(None);
    let resultado_vazio = validar_pasta_raiz(Some(""));
    assert!(matches!(resultado_none, Err(AppError::PastaRaizNaoConfigurada)));
    assert!(matches!(resultado_vazio, Err(AppError::PastaRaizNaoConfigurada)));
}

#[test]
fn decisao_da_busca() {
    assert_eq!(decidir_busca(false, false), PassoBusca::Copiar);
    assert_eq!(decidir_busca(false, true), PassoBusca::Copiar);
    assert_eq!(decidir_busca(true, false), PassoBusca::ResponderJaExiste);
    assert_eq!(decidir_busca(true, true), PassoBusca::ApagarECopiar);
}

#[test]
fn configuracao_vinda_da_interface_e_normalizada() {
    let casos = [
        ("pular", "claro", "pular", "claro"),
        ("renomear", "escuro", "renomear", "escuro"),
        ("sobrescrever", "claro", "sobrescrever", "claro"),
        ("apagar", "azul", "sobrescrever", "escuro"),
    ];
    for (politica, tema, politica_volta, tema_volta) in casos {
        let dto = AppConfigDto {
            pasta_raiz: Some("/mnt/z".to_string()),
            politica_sobrescrita: politica.to_string(),
            tema: tema.to_string(),
        };
        let volta = AppConfigDto::from(AppConfig::from(dto));
        assert_eq!(volta.pasta_raiz.as_deref(), Some("/mnt/z"));
        assert_eq!(volta.politica_sobrescrita, politica_volta);
        assert_eq!(volta.tema, tema_volta);
    }
}
