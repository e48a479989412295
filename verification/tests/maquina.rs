use oxebank::atendimento::{
    avancar, iniciar, acao_pendente, espera, Acao, ArquivoQr, Campo, Consulta, Corpo, DadosQr,
    Etapa, Evento, Formato, NivelCorrecao, Pedido,
};
use oxebank::cliente::Cliente;
use oxebank::transf::{Avaliacao, Modo, TransfConta, TransfPix};

fn s(x: &str) -> String {
    x.to_string()
}

fn cliente(nome: &str, conta: &str, saldo: &str) -> Cliente {
    Cliente {
        nome: s(nome),
        num: s("7"),
        cpf: format!("cpf-{}", nome),
        conta: s(conta),
        saldo: s(saldo),
        pix: format!("{}@pix", nome),
    }
}

fn correr(p: Pedido, evs: Vec<Evento>) -> (Etapa, Vec<Acao>) {
    let (mut e, a0) = iniciar(p);
    let mut acoes = vec![a0];
    for ev in evs {
        let (e1, a) = avancar(e, ev);
        e = e1;
        acoes.push(a);
    }
    (e, acoes)
}

fn busca(a: &Acao) -> (Campo, String) {
    match a {
        Acao::Buscar(f) => (f.campo, f.valor.clone()),
        _ => panic!("expected a lookup"),
    }
}

fn gravacao(a: &Acao) -> (Campo, String, String) {
    match a {
        Acao::GravarSaldo { filtro, saldo } => (filtro.campo, filtro.valor.clone(), saldo.clone()),
        _ => panic!("expected a balance write"),
    }
}

fn texto(a: &Acao) -> (u16, String) {
    match a {
        Acao::Responder(r) => match &r.corpo {
            Corpo::Texto(m) => (r.status, m.texto()),
            _ => panic!("expected a text body"),
        },
        _ => panic!("expected an answer"),
    }
}

fn encerrada(e: &Etapa) -> bool {
    matches!(e, Etapa::Encerrada)
}

fn transf_conta() -> Pedido {
    Pedido::TransfConta(TransfConta {
        conta_remetente: s("111"),
        quantia: s("25.5"),
        conta_destinatario: s("222"),
    })
}

fn transf_pix() -> Pedido {
    Pedido::TransfPix(TransfPix {
        pix_remetente: s("ana@pix"),
        quantia: s("3"),
        pix_destinatario: s("bia@pix"),
    })
}

fn avaliacao(insuf: bool, neg: bool) -> Avaliacao {
    Avaliacao {
        saldo_insuficiente: insuf,
        quantia_negativa: neg,
        saldo_remetente: s("74.5"),
        saldo_destinatario: s("125.5"),
    }
}

#[test]
fn transferencia_por_conta_concluida() {
    let (e, a) = correr(
        transf_conta(),
        vec![
            Evento::Encontrado(Some(cliente("ana", "111", "100"))),
            Evento::Encontrado(Some(cliente("bia", "222", "100"))),
            Evento::TransferenciaAvaliada(avaliacao(false, false)),
            Evento::Gravado,
            Evento::Gravado,
            Evento::Relogio { data: s("05-06-2023"), hora: s("12:00:01") },
        ],
    );
    assert!(encerrada(&e));
    assert_eq!(a.len(), 7);
    assert!(busca(&a[0]) == (Campo::Conta, s("111")));
    assert!(busca(&a[1]) == (Campo::Conta, s("222")));
    match &a[2] {
        Acao::AvaliarTransferencia { saldo_remetente, saldo_destinatario, quantia } => {
            assert_eq!((saldo_remetente.as_str(), saldo_destinatario.as_str(), quantia.as_str()), ("100", "100", "25.5"));
        },
        _ => panic!("expected an evaluation"),
    }
    assert!(gravacao(&a[3]) == (Campo::Conta, s("111"), s("74.5")));
    assert!(gravacao(&a[4]) == (Campo::Conta, s("222"), s("125.5")));
    assert!(matches!(
        a[5],
        Acao::ConsultarRelogio { data: Formato::DiaMesAno, hora: Formato::HoraMinutoSegundo }
    ));
    match &a[6] {
        Acao::Responder(r) => {
            assert_eq!(r.status, 200);
            match &r.corpo {
                Corpo::Transferencia(c) => {
                    assert!(c.modo == Modo::Conta);
                    assert_eq!(c.remetente, "111");
                    assert_eq!(c.destinatario, "222");
                    assert_eq!(c.quantia, "25.5");
                    assert_eq!(c.data, "05-06-2023");
                    assert_eq!(c.hora, "12:00:01");
                },
                _ => panic!("expected a transfer body"),
            }
        },
        _ => panic!("expected an answer"),
    }
}

#[test]
fn transferencia_por_pix_concluida() {
    let (e, a) = correr(
        transf_pix(),
        vec![
            Evento::Encontrado(Some(cliente("ana", "111", "10"))),
            Evento::Encontrado(Some(cliente("bia", "222", "0"))),
            Evento::TransferenciaAvaliada(avaliacao(false, false)),
            Evento::Gravado,
            Evento::Gravado,
            Evento::Relogio { data: s("d"), hora: s("h") },
        ],
    );
    assert!(encerrada(&e));
    assert!(busca(&a[0]) == (Campo::Pix, s("ana@pix")));
    assert!(busca(&a[1]) == (Campo::Pix, s("bia@pix")));
    assert!(gravacao(&a[3]) == (Campo::Pix, s("ana@pix"), s("74.5")));
    assert!(gravacao(&a[4]) == (Campo::Pix, s("bia@pix"), s("125.5")));
    match &a[6] {
        Acao::Responder(r) => match &r.corpo {
            Corpo::Transferencia(c) => {
                let resp = oxebank::transf::ConclusaoTransferencia {
                    modo: c.modo,
                    remetente: c.remetente.clone(),
                    destinatario: c.destinatario.clone(),
                    quantia: c.quantia.clone(),
                    data: c.data.clone(),
                    hora: c.hora.clone(),
                }
                .resposta();
                assert_eq!(resp.mensagem, "Transferência via pix concluída");
                assert_eq!(resp.quantia, "3");
            },
            _ => panic!("expected a transfer body"),
        },
        _ => panic!("expected an answer"),
    }
}

#[test]
fn remetente_por_conta_ausente() {
    let (e, a) = correr(transf_conta(), vec![Evento::Encontrado(None)]);
    assert!(encerrada(&e));
    assert_eq!(a.len(), 2);
    assert_eq!(texto(&a[1]), (404, s("Conta do remetente 111 não encontrada!")));
}

#[test]
fn remetente_por_pix_ausente() {
    let (_, a) = correr(transf_pix(), vec![Evento::Encontrado(None)]);
    assert_eq!(texto(&a[1]), (404, s("Pix do remetente não encontrado!")));
}

#[test]
fn destinatario_por_conta_ausente() {
    let (e, a) = correr(
        transf_conta(),
        vec![Evento::Encontrado(Some(cliente("ana", "111", "1"))), Evento::Encontrado(None)],
    );
    assert!(encerrada(&e));
    assert_eq!(texto(&a[2]), (404, s("Conta do destinatário 222 não encontrada!")));
}

#[test]
fn destinatario_por_pix_ausente() {
    let (_, a) = correr(
        transf_pix(),
        vec![Evento::Encontrado(Some(cliente("ana", "111", "1"))), Evento::Encontrado(None)],
    );
    assert_eq!(texto(&a[2]), (404, s("Pix do destinatário não encontrado!")));
}

fn recusa(insuf: bool, neg: bool) -> (u16, String) {
    let (e, a) = correr(
        transf_conta(),
        vec![
            Evento::Encontrado(Some(cliente("ana", "111", "1"))),
            Evento::Encontrado(Some(cliente("bia", "222", "1"))),
            Evento::TransferenciaAvaliada(avaliacao(insuf, neg)),
        ],
    );
    assert!(encerrada(&e));
    assert_eq!(a.len(), 4);
    assert!(!a.iter().any(|x| matches!(x, Acao::GravarSaldo { .. })));
    texto(&a[3])
}

#[test]
fn saldo_insuficiente() {
    assert_eq!(recusa(true, false), (406, s("O saldo da conta é insuficiente")));
}

#[test]
fn saldo_insuficiente_antes_da_quantia_negativa() {
    assert_eq!(recusa(true, true), (406, s("O saldo da conta é insuficiente")));
}

#[test]
fn quantia_negativa() {
    assert_eq!(
        recusa(false, true),
        (406, s("A requisição de transferência não pode ter uma quantia negativa!"))
    );
}

#[test]
fn deposito_realizado() {
    let (e, a) = correr(
        Pedido::Deposito(s("555")),
        vec![
            Evento::DepositoAvaliado { quantia_negativa: false },
            Evento::Encontrado(Some(cliente("ana", "555", "1"))),
            Evento::Gravado,
            Evento::Relogio { data: s("01-01-2024"), hora: s("00:00:00") },
        ],
    );
    assert!(encerrada(&e));
    assert!(matches!(a[0], Acao::AvaliarDeposito));
    assert!(busca(&a[1]) == (Campo::Conta, s("555")));
    match &a[2] {
        Acao::CreditarDeposito(filtro) => {
            assert!(filtro.campo == Campo::Conta && filtro.valor == "555");
        },
        _ => panic!("expected a credit"),
    }
    assert!(matches!(a[3], Acao::ConsultarRelogio { .. }));
    match &a[4] {
        Acao::Responder(r) => {
            assert_eq!(r.status, 200);
            match &r.corpo {
                Corpo::Deposito(c) => {
                    assert_eq!(c.mensagem.texto(), "Depósito realizado com sucesso");
                    assert_eq!((c.conta.as_str(), c.data.as_str(), c.hora.as_str()), ("555", "01-01-2024", "00:00:00"));
                },
                _ => panic!("expected a deposit body"),
            }
        },
        _ => panic!("expected an answer"),
    }
}

#[test]
fn deposito_credita_a_conta_encontrada() {
    let (_, a) = correr(
        Pedido::Deposito(s("555")),
        vec![
            Evento::DepositoAvaliado { quantia_negativa: false },
            Evento::Encontrado(Some(cliente("ana", "0555", "1"))),
        ],
    );
    match &a[2] {
        Acao::CreditarDeposito(filtro) => assert_eq!(filtro.valor, "0555"),
        _ => panic!("expected a credit"),
    }
}

#[test]
fn deposito_negativo() {
    let (e, a) = correr(Pedido::Deposito(s("555")), vec![Evento::DepositoAvaliado { quantia_negativa: true }]);
    assert!(encerrada(&e));
    assert_eq!(a.len(), 2);
    assert_eq!(
        texto(&a[1]),
        (406, s("A requisição de depósito não pode ter uma quantia negativa!"))
    );
}

#[test]
fn depositante_ausente() {
    let (e, a) = correr(
        Pedido::Deposito(s("555")),
        vec![Evento::DepositoAvaliado { quantia_negativa: false }, Evento::Encontrado(None)],
    );
    assert!(encerrada(&e));
    assert_eq!(texto(&a[2]), (404, s("Conta do depositante não encontrada!")));
}

#[test]
fn exibir_ted() {
    let (e, a) = correr(
        Pedido::Exibicao(Consulta::Ted, s("cpf-ana")),
        vec![Evento::Encontrado(Some(cliente("ana", "111", "1")))],
    );
    assert!(encerrada(&e));
    assert!(busca(&a[0]) == (Campo::Cpf, s("cpf-ana")));
    match &a[1] {
        Acao::Responder(r) => {
            assert_eq!(r.status, 200);
            match &r.corpo {
                Corpo::Ted(d) => {
                    assert_eq!((d.nome.as_str(), d.cpf.as_str(), d.conta.as_str()), ("ana", "cpf-ana", "111"));
                },
                _ => panic!("expected TED data"),
            }
        },
        _ => panic!("expected an answer"),
    }
}

#[test]
fn exibir_pix() {
    let (_, a) = correr(
        Pedido::Exibicao(Consulta::Pix, s("cpf-ana")),
        vec![Evento::Encontrado(Some(cliente("ana", "111", "1")))],
    );
    match &a[1] {
        Acao::Responder(r) => match &r.corpo {
            Corpo::Pix(d) => assert_eq!((d.nome.as_str(), d.chave_pix.as_str()), ("ana", "ana@pix")),
            _ => panic!("expected PIX data"),
        },
        _ => panic!("expected an answer"),
    }
}

#[test]
fn exibir_sem_titular() {
    assert_eq!(
        texto(&correr(Pedido::Exibicao(Consulta::Pix, s("x")), vec![Evento::Encontrado(None)]).1[1]),
        (404, s("Nenhuma chave pix foi encontrada"))
    );
    for k in [Consulta::Ted, Consulta::TedQr, Consulta::PixQr] {
        let (e, a) = correr(Pedido::Exibicao(k, s("x")), vec![Evento::Encontrado(None)]);
        assert!(encerrada(&e));
        match &a[1] {
            Acao::Responder(r) => {
                assert_eq!(r.status, 200);
                match &r.corpo {
                    Corpo::JsonMensagem(m) => {
                        assert_eq!(m.texto(), "Não foi encontrada conta referente ao pedido!")
                    },
                    _ => panic!("expected a JSON message"),
                }
            },
            _ => panic!("expected an answer"),
        }
    }
}

#[test]
fn dados_em_qr() {
    for (k, arquivo_esperado) in [(Consulta::TedQr, ArquivoQr::Ted), (Consulta::PixQr, ArquivoQr::Pix)] {
        let (e, a) = correr(
            Pedido::Exibicao(k, s("cpf-ana")),
            vec![
                Evento::Encontrado(Some(cliente("ana", "111", "1"))),
                Evento::Serializado(s("{\"nome\":\"ana\"}")),
                Evento::QrGerado,
            ],
        );
        assert!(encerrada(&e));
        assert_eq!(a.len(), 4);
        match (&a[1], k) {
            (Acao::Serializar(DadosQr::Ted(d)), Consulta::TedQr) => assert_eq!(d.conta, "111"),
            (Acao::Serializar(DadosQr::Pix(d)), Consulta::PixQr) => assert_eq!(d.chave_pix, "ana@pix"),
            _ => panic!("expected the data to write"),
        }
        match &a[2] {
            Acao::GerarQr { conteudo, arquivo, tamanho, correcao } => {
                assert_eq!(conteudo, "{\"nome\":\"ana\"}");
                assert!(*arquivo == arquivo_esperado);
                assert_eq!(*tamanho, 1024);
                assert!(*correcao == NivelCorrecao::Baixo);
            },
            _ => panic!("expected a QR code"),
        }
        match &a[3] {
            Acao::Responder(r) => {
                assert_eq!(r.status, 200);
                match &r.corpo {
                    Corpo::JsonTexto(t) => assert_eq!(t, "{\"nome\":\"ana\"}"),
                    _ => panic!("expected a JSON text"),
                }
            },
            _ => panic!("expected an answer"),
        }
    }
}

#[test]
fn cadastro() {
    let (e, a) = correr(Pedido::Cadastro(cliente("ana", "111", "0")), vec![Evento::Inserido]);
    assert!(encerrada(&e));
    match &a[0] {
        Acao::Inserir(c) => assert_eq!((c.nome.as_str(), c.conta.as_str(), c.pix.as_str()), ("ana", "111", "ana@pix")),
        _ => panic!("expected an insert"),
    }
    match &a[1] {
        Acao::Responder(r) => {
            assert_eq!(r.status, 201);
            assert!(matches!(r.corpo, Corpo::Vazio));
        },
        _ => panic!("expected an answer"),
    }
}

#[test]
fn listagem() {
    let (e, a) = correr(
        Pedido::Listagem,
        vec![Evento::Lista(vec![Some(cliente("a", "1", "0")), None, Some(cliente("b", "2", "0"))])],
    );
    assert!(encerrada(&e));
    assert!(matches!(a[0], Acao::BuscarTodos));
    match &a[1] {
        Acao::Responder(r) => {
            assert_eq!(r.status, 200);
            match &r.corpo {
                Corpo::Clientes(v) => {
                    assert_eq!(v.len(), 3);
                    let validos = oxebank::cliente::clientes_validos(
                        v.iter().map(|x| x.as_ref().map(|c| c.clonar())).collect(),
                    );
                    assert_eq!(validos.len(), 2);
                    assert_eq!(validos[1].nome, "b");
                },
                _ => panic!("expected a listing"),
            }
        },
        _ => panic!("expected an answer"),
    }
}

#[test]
fn saudacao() {
    let (e, a) = correr(Pedido::Saudacao, vec![]);
    assert!(encerrada(&e));
    assert_eq!(texto(&a[0]), (200, s("Hello, world!")));
}

#[test]
fn relato_inesperado_repete_o_pedido() {
    let (e, a) = correr(
        transf_conta(),
        vec![Evento::Gravado, Evento::TransferenciaAvaliada(avaliacao(false, false)), Evento::QrGerado],
    );
    assert!(matches!(e, Etapa::BuscandoRemetente(_)));
    for x in &a {
        assert!(busca(x) == (Campo::Conta, s("111")));
    }
}

#[test]
fn nada_depois_da_resposta() {
    let (e, a) = correr(Pedido::Saudacao, vec![Evento::Gravado, Evento::Encontrado(None)]);
    assert!(encerrada(&e));
    assert!(matches!(a[1], Acao::Nenhuma));
    assert!(matches!(a[2], Acao::Nenhuma));
    assert!(matches!(acao_pendente(&Etapa::Encerrada), Acao::Nenhuma));
}

#[test]
fn espera_somente_o_relato_pedido() {
    assert!(espera(&Etapa::Listando, &Evento::Lista(Vec::new())));
    assert!(!espera(&Etapa::Listando, &Evento::Inserido));
    assert!(!espera(&Etapa::Encerrada, &Evento::Inserido));
    assert!(espera(&Etapa::AvaliandoDeposito(s("1")), &Evento::DepositoAvaliado { quantia_negativa: true }));
}

#[test]
fn nenhuma_escrita_sem_avaliacao_favoravel() {
    // Reports in a shuffled order, with a refusing evaluation: nothing is written.
    let (_, a) = correr(
        transf_conta(),
        vec![
            Evento::Gravado,
            Evento::Encontrado(Some(cliente("ana", "111", "1"))),
            Evento::Gravado,
            Evento::Encontrado(Some(cliente("bia", "222", "1"))),
            Evento::Gravado,
            Evento::TransferenciaAvaliada(avaliacao(false, true)),
            Evento::Gravado,
            Evento::Gravado,
        ],
    );
    assert!(!a.iter().any(|x| matches!(x, Acao::GravarSaldo { .. })));
    // A deposit whose amount is negative credits nothing, whatever follows.
    let (_, a) = correr(
        Pedido::Deposito(s("1")),
        vec![
            Evento::DepositoAvaliado { quantia_negativa: true },
            Evento::Encontrado(Some(cliente("ana", "1", "1"))),
            Evento::Gravado,
        ],
    );
    assert!(!a.iter().any(|x| matches!(x, Acao::CreditarDeposito(_))));
}

#[test]
fn transferencia_para_a_propria_conta_nao_grava() {
    let pedido = Pedido::TransfConta(TransfConta {
        conta_remetente: s("111"),
        quantia: s("10"),
        conta_destinatario: s("111"),
    });
    let (e, a) = correr(
        pedido,
        vec![
            Evento::Encontrado(Some(cliente("ana", "111", "100"))),
            Evento::Encontrado(Some(cliente("ana", "111", "100"))),
            Evento::TransferenciaAvaliada(Avaliacao {
                saldo_insuficiente: false,
                quantia_negativa: false,
                saldo_remetente: s("90"),
                saldo_destinatario: s("110"),
            }),
            Evento::Relogio { data: s("d"), hora: s("h") },
        ],
    );
    assert!(encerrada(&e));
    assert_eq!(a.len(), 5);
    assert!(!a.iter().any(|x| matches!(x, Acao::GravarSaldo { .. })));
    assert!(matches!(a[3], Acao::ConsultarRelogio { .. }));
    match &a[4] {
        Acao::Responder(r) => {
            assert_eq!(r.status, 200);
            assert!(matches!(r.corpo, Corpo::Transferencia(_)));
        },
        _ => panic!("expected an answer"),
    }
}

#[test]
fn transferencia_para_si_recusada_pelo_saldo() {
    let pedido = Pedido::TransfPix(TransfPix {
        pix_remetente: s("ana@pix"),
        quantia: s("1000"),
        pix_destinatario: s("ana@pix"),
    });
    let (_, a) = correr(
        pedido,
        vec![
            Evento::Encontrado(Some(cliente("ana", "111", "100"))),
            Evento::Encontrado(Some(cliente("ana", "111", "100"))),
            Evento::TransferenciaAvaliada(avaliacao(true, false)),
        ],
    );
    assert_eq!(texto(&a[3]), (406, s("O saldo da conta é insuficiente")));
}

#[test]
fn padroes_do_relogio() {
    assert_eq!(Formato::DiaMesAno.padrao(), "%d-%m-%Y");
    assert_eq!(Formato::HoraMinutoSegundo.padrao(), "%H:%M:%S");
}

#[test]
fn pix_como_conta() {
    let evs = || {
        vec![
            Evento::Encontrado(Some(cliente("ana", "111", "100"))),
            Evento::Encontrado(Some(cliente("bia", "222", "100"))),
            Evento::TransferenciaAvaliada(avaliacao(false, false)),
            Evento::Gravado,
            Evento::Gravado,
            Evento::Relogio { data: s("d"), hora: s("h") },
        ]
    };
    let (_, a1) = correr(transf_conta(), evs());
    let (_, a2) = correr(
        Pedido::TransfPix(TransfPix {
            pix_remetente: s("ana@pix"),
            quantia: s("25.5"),
            pix_destinatario: s("bia@pix"),
        }),
        evs(),
    );
    assert_eq!(a1.len(), a2.len());
    assert_eq!(gravacao(&a1[3]).2, gravacao(&a2[3]).2);
    assert_eq!(gravacao(&a1[4]).2, gravacao(&a2[4]).2);
    match (&a1[6], &a2[6]) {
        (Acao::Responder(r1), Acao::Responder(r2)) => assert_eq!(r1.status, r2.status),
        _ => panic!("expected answers"),
    }
}

#[test]
fn consultas_nao_gravam() {
    for k in [Consulta::Ted, Consulta::Pix, Consulta::TedQr, Consulta::PixQr] {
        let (_, a) = correr(
            Pedido::Exibicao(k, s("cpf-ana")),
            vec![
                Evento::Gravado,
                Evento::Encontrado(Some(cliente("ana", "111", "1"))),
                Evento::Inserido,
                Evento::Serializado(s("{}")),
                Evento::QrGerado,
            ],
        );
        for x in &a {
            assert!(!matches!(
                x,
                Acao::Inserir(_) | Acao::GravarSaldo { .. } | Acao::CreditarDeposito(_)
            ));
            if let Acao::GerarQr { arquivo, .. } = x {
                assert!(
                    (k == Consulta::TedQr && *arquivo == ArquivoQr::Ted)
                        || (k == Consulta::PixQr && *arquivo == ArquivoQr::Pix)
                );
            }
        }
    }
}

#[test]
fn pix_entre_chaves_diferentes_da_mesma_conta_grava() {
    let (e, a) = correr(
        transf_pix(),
        vec![
            Evento::Encontrado(Some(cliente("ana", "1", "100"))),
            Evento::Encontrado(Some(cliente("bia", "1", "100"))),
            Evento::TransferenciaAvaliada(avaliacao(false, false)),
            Evento::Gravado,
            Evento::Gravado,
            Evento::Relogio { data: s("d"), hora: s("h") },
        ],
    );
    assert!(encerrada(&e));
    assert!(gravacao(&a[3]) == (Campo::Pix, s("ana@pix"), s("74.5")));
    assert!(gravacao(&a[4]) == (Campo::Pix, s("bia@pix"), s("125.5")));
}

#[test]
fn recusa_nao_grava_mesmo_com_relatos_fora_de_ordem() {
    let (_, a) = correr(
        transf_conta(),
        vec![
            Evento::Encontrado(Some(cliente("ana", "111", "1"))),
            Evento::Gravado,
            Evento::Encontrado(None),
            Evento::TransferenciaAvaliada(avaliacao(false, false)),
            Evento::Gravado,
        ],
    );
    assert_eq!(texto(&a[3]), (404, s("Conta do destinatário 222 não encontrada!")));
    assert!(!a.iter().any(|x| matches!(x, Acao::GravarSaldo { .. })));
}
