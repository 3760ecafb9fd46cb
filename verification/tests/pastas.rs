use gestor_pastas_militares::errors::AppError;
use gestor_pastas_militares::filesystem::{
    corresponde, destino_copia_arquivo, encontrar_pasta_militar, montar_nome_pasta,
    nome_pasta_militar, split_file_stem_ext, usa_instante, CopyStats, EntradaPasta,
    PoliticaSobrescrita,
};
use gestor_pastas_militares::matricula::Matricula;
use gestor_pastas_militares::texto::decimal_u64;

fn entrada(nome: &str, e_dir: bool) -> EntradaPasta {
    EntradaPasta { nome: nome.to_string(), e_dir: Some(e_dir) }
}

/// The entries, one level below the root, of a small network folder:
/// `LEV PM 111/{111111-1 - FULANO DE TAL, 111112-2 - OUTRO}` and
/// `LEV PM 999/999999-9 - SEM RELACAO`, each with one file inside.
fn estrutura_de_teste() -> Vec<(String, EntradaPasta)> {
    vec![
        ("LEV PM 111".to_string(), entrada("111111-1 - FULANO DE TAL", true)),
        ("LEV PM 111".to_string(), entrada("111112-2 - OUTRO", true)),
        ("LEV PM 999".to_string(), entrada("999999-9 - SEM RELACAO", true)),
    ]
}

fn buscar_flat(estrutura: Vec<(String, EntradaPasta)>, m: &Matricula) -> Option<String> {
    let (subpastas, entradas): (Vec<String>, Vec<EntradaPasta>) = estrutura.into_iter().unzip();
    encontrar_pasta_militar(&entradas, m)
        .unwrap()
        .map(|i| format!("{}/{}", subpastas[i], entradas[i].nome))
}

#[test]
fn test_encontrar_pasta_existente() {
    // the folder sits under `11111/`, not under its own sub-folder
    let estrutura = vec![("11111".to_string(), entrada("111111-1 - FULANO DE TAL", true))];
    let m = Matricula::parse("111111-1").unwrap();
    let resultado = buscar_flat(estrutura, &m);
    assert!(resultado.is_some());
    assert!(resultado.unwrap().contains("FULANO"));
}

#[test]
fn test_encontrar_pasta_inexistente() {
    let entradas: Vec<EntradaPasta> = Vec::new();
    let m = Matricula::parse("999999-9").unwrap();
    assert_eq!(encontrar_pasta_militar(&entradas, &m), Ok(None));
}

#[test]
fn encontrar_falha_so_quando_o_tipo_de_uma_candidata_falta() {
    let m = Matricula::parse("111111-1").unwrap();
    let sem_tipo = |nome: &str| EntradaPasta { nome: nome.to_string(), e_dir: None };
    // an unreadable type on a name that does not match is passed over
    let entradas = vec![sem_tipo("999999-9 - OUTRO"), entrada("111111-1 - FULANO", true)];
    assert_eq!(encontrar_pasta_militar(&entradas, &m), Ok(Some(1)));
    // on a matching name before the answer, the lookup fails on it
    let entradas = vec![sem_tipo("111111-1 - X"), entrada("111111-1 - FULANO", true)];
    assert_eq!(encontrar_pasta_militar(&entradas, &m), Err(0));
    // after the answer, it is never looked at
    let entradas = vec![entrada("111111-1 - FULANO", true), sem_tipo("111111-1 - X")];
    assert_eq!(encontrar_pasta_militar(&entradas, &m), Ok(Some(0)));
}

#[test]
fn usa_instante_so_ao_renomear_existente() {
    assert!(usa_instante(true, PoliticaSobrescrita::RenomearComSufixo));
    assert!(!usa_instante(false, PoliticaSobrescrita::RenomearComSufixo));
    assert!(!usa_instante(true, PoliticaSobrescrita::Pular));
    assert!(!usa_instante(true, PoliticaSobrescrita::Sobrescrever));
}

#[test]
fn test_buscar_matricula_existente() {
    let m = Matricula::parse("111111-1").unwrap();
    let resultado = buscar_flat(estrutura_de_teste(), &m);
    assert!(resultado.is_some());
    assert!(resultado.unwrap().contains("FULANO DE TAL"));
}

#[test]
fn test_buscar_matricula_inexistente() {
    let m = Matricula::parse("666666-6").unwrap();
    assert!(buscar_flat(estrutura_de_teste(), &m).is_none());
}

#[test]
fn test_busca_flat_encontra_em_subpasta_errada() {
    let estrutura = vec![("LEV PM 999".to_string(), entrada("111111-1 - FULANO DE TAL", true))];
    let m = Matricula::parse("111111-1").unwrap();
    let resultado = buscar_flat(estrutura, &m);
    assert!(resultado.is_some());
    let path = resultado.unwrap();
    assert!(path.contains("LEV PM 999"));
    assert!(path.contains("FULANO DE TAL"));
}

#[test]
fn encontrar_ignora_arquivos_e_pega_o_primeiro_diretorio() {
    let entradas = vec![
        entrada("1111111.pdf", false),
        entrada("999999-9 - OUTRO", true),
        entrada("1111111 - SEM HIFEN", true),
        entrada("111111-1 - FULANO", true),
    ];
    let m = Matricula::parse("111111-1").unwrap();
    assert_eq!(encontrar_pasta_militar(&entradas, &m), Ok(Some(2)));
}

#[test]
fn corresponde_por_prefixo_com_ou_sem_hifen() {
    let m = Matricula::parse("1111111").unwrap();
    assert!(corresponde("111111-1 - FULANO", &m));
    assert!(corresponde("1111111 - FULANO", &m));
    assert!(corresponde("11-11111 - FULANO", &m));
    assert!(!corresponde("111112-2 - OUTRO", &m));
    assert!(!corresponde("FULANO 111111-1", &m));
}

#[test]
fn test_criar_pasta_militar() {
    let m = Matricula::parse("111111-1").unwrap();
    let nome = nome_pasta_militar(&m, "Fulano de Tal");
    assert_eq!(nome, "111111-1 - FULANO DE TAL");
    assert!(nome.contains("FULANO DE TAL"));
}

#[test]
fn test_enviar_matricula_inexistente_cria_pasta() {
    let m = Matricula::parse("777777-7").unwrap();
    let nome = nome_pasta_militar(&m, "SETIMO MILITAR");
    assert!(nome.contains("777777-7 - SETIMO MILITAR"));
    assert_eq!(m.subpasta, "LEV PM 777");
}

#[test]
fn nome_pasta_apara_e_poe_em_maiusculas() {
    let m = Matricula::parse("9207901").unwrap();
    assert_eq!(nome_pasta_militar(&m, "  joão da silva \n"), "920790-1 - JOÃO DA SILVA");
    assert_eq!(montar_nome_pasta("11-1", "X"), "11-1 - X");
}

#[test]
fn pasta_criada_e_encontrada() {
    let m = Matricula::parse("14320-0").unwrap();
    let nome = nome_pasta_militar(&m, "ciclano");
    assert!(corresponde(&nome, &m));
    let entradas = vec![entrada("143201-1 - OUTRO", true), entrada(&nome, true)];
    assert_eq!(encontrar_pasta_militar(&entradas, &m), Ok(Some(1)));
}

#[test]
fn separa_nome_e_extensao() {
    assert_eq!(split_file_stem_ext("relatorio.final.pdf"), ("relatorio.final".to_string(), "pdf".to_string()));
    assert_eq!(split_file_stem_ext("LEIAME"), ("LEIAME".to_string(), String::new()));
    assert_eq!(split_file_stem_ext(".bashrc"), (".bashrc".to_string(), String::new()));
    assert_eq!(split_file_stem_ext("a."), ("a".to_string(), String::new()));
}

#[test]
fn test_copiar_arquivo() {
    // nothing at the destination: written under its own name
    assert_eq!(
        destino_copia_arquivo(false, PoliticaSobrescrita::Sobrescrever, "origem.txt", 5),
        Some("origem.txt".to_string())
    );
}

#[test]
fn destino_copia_arquivo_por_politica() {
    assert_eq!(destino_copia_arquivo(true, PoliticaSobrescrita::Pular, "a.txt", 7), None);
    assert_eq!(
        destino_copia_arquivo(true, PoliticaSobrescrita::Sobrescrever, "a.txt", 7),
        Some("a.txt".to_string())
    );
    assert_eq!(
        destino_copia_arquivo(true, PoliticaSobrescrita::RenomearComSufixo, "a.txt", 1700000000),
        Some("a_1700000000.txt".to_string())
    );
    assert_eq!(
        destino_copia_arquivo(true, PoliticaSobrescrita::RenomearComSufixo, "LEIAME", 42),
        Some("LEIAME_42.".to_string())
    );
    assert_eq!(
        destino_copia_arquivo(false, PoliticaSobrescrita::Pular, "a.txt", 7),
        Some("a.txt".to_string())
    );
}

#[test]
fn politica_de_texto() {
    assert_eq!(PoliticaSobrescrita::from_str("sobrescrever").unwrap(), PoliticaSobrescrita::Sobrescrever);
    assert_eq!(PoliticaSobrescrita::from_str("pular").unwrap(), PoliticaSobrescrita::Pular);
    assert_eq!(
        PoliticaSobrescrita::from_str("renomear").unwrap(),
        PoliticaSobrescrita::RenomearComSufixo
    );
    match PoliticaSobrescrita::from_str("apagar") {
        Err(e) => assert_eq!(e.mensagem(), "Erro de serialização: Política de sobrescrita inválida: apagar"),
        Ok(p) => panic!("aceitou {:?}", p),
    }
}

#[test]
fn decimal_de_u64() {
    assert_eq!(decimal_u64(0), "0");
    assert_eq!(decimal_u64(7), "7");
    assert_eq!(decimal_u64(1024), "1024");
    assert_eq!(decimal_u64(u64::MAX), u64::MAX.to_string());
}

#[test]
fn estatisticas_de_copia() {
    let mut total = CopyStats::vazio();
    total.registrar_arquivo(10);
    let mut sub = CopyStats::vazio();
    sub.registrar_arquivo(5);
    sub.registrar_arquivo(0);
    total.acumular(&sub);
    assert_eq!(total.arquivos_copiados, 3);
    assert_eq!(total.bytes_copiados, 15);
}

#[test]
fn mensagens_dos_erros() {
    assert_eq!(AppError::de_io("negado".to_string()).mensagem(), "Erro de E/S em : negado");
    assert_eq!(AppError::PastaRaizNaoConfigurada.mensagem(), "Pasta raiz não configurada");
    assert_eq!(AppError::SubpastaInexistente("x".to_string()).mensagem(), "Subpasta inexistente: x");
    assert_eq!(AppError::MilitarNaoEncontrado("x".to_string()).mensagem(), "Militar não encontrado: x");
    assert_eq!(AppError::PastaDestinoInvalida("x".to_string()).mensagem(), "Pasta destino inválida: x");
    assert_eq!(AppError::ArquivoNaoEncontrado("x".to_string()).mensagem(), "Arquivo não encontrado: x");
    assert_eq!(
        AppError::ErroDeIO { path: "/a".to_string(), fonte: "b".to_string() }.mensagem(),
        "Erro de E/S em /a: b"
    );
}
