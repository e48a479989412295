use vstd::prelude::*;

use crate::cliente::{Cliente, dados_ted_de, dados_pix_de};
use crate::mensagem::Mensagem;
use crate::transf::{
    Avaliacao, ConclusaoTransferencia, PedidoTransferencia, TransfConta, TransfPix, permitida,
    pedido_de_conta, pedido_de_pix, Modo,
};
use crate::atendimento::{
    Pedido, Etapa, Acao, Evento, Corpo, eh_transferencia, transferencia_de, atendimento, percurso,
    filtro_remetente, filtro_destinatario, responder, remetente_ausente, destinatario_ausente,
    Filtro, Campo, ConfirmacaoDeposito, Consulta, DadosQr, ArquivoQr, passo, pendente, esperado,
    inicio, consultar_relogio, gerar_qr, para_si, arquivo_de,
};

verus! {

/// A transfer between two different parties (different accounts, or
/// different PIX keys), both found, whose balances allow it looks up the sender, then the recipient, has the balances evaluated,
/// stores the sender's new balance, then the recipient's, reads the clock
/// and answers 200 with the parties and amount as requested.
pub proof fn lei_transferencia_concluida(
    p: Pedido,
    remetente: Cliente,
    destinatario: Cliente,
    a: Avaliacao,
    data: String,
    hora: String,
)
    requires
        eh_transferencia(p),
        permitida(a),
        !para_si(transferencia_de(p)),
    ensures
        ({
            let q = transferencia_de(p);
            atendimento(
                p,
                seq![
                    Evento::Encontrado(Some(remetente)),
                    Evento::Encontrado(Some(destinatario)),
                    Evento::TransferenciaAvaliada(a),
                    Evento::Gravado,
                    Evento::Gravado,
                    Evento::Relogio { data, hora },
                ],
            ) == (
                Etapa::Encerrada,
                seq![
                    Acao::Buscar(filtro_remetente(q)),
                    Acao::Buscar(filtro_destinatario(q)),
                    Acao::AvaliarTransferencia {
                        saldo_remetente: remetente.saldo,
                        saldo_destinatario: destinatario.saldo,
                        quantia: q.quantia,
                    },
                    Acao::GravarSaldo { filtro: filtro_remetente(q), saldo: a.saldo_remetente },
                    Acao::GravarSaldo {
                        filtro: filtro_destinatario(q),
                        saldo: a.saldo_destinatario,
                    },
                    consultar_relogio(),
                    responder(
                        200,
                        Corpo::Transferencia(
                            ConclusaoTransferencia {
                                modo: q.modo,
                                remetente: q.remetente,
                                destinatario: q.destinatario,
                                quantia: q.quantia,
                                data,
                                hora,
                            },
                        ),
                    ),
                ],
            )
        }),
{
    reveal_with_fuel(percurso, 7);
    let evs = seq![
        Evento::Encontrado(Some(remetente)),
        Evento::Encontrado(Some(destinatario)),
        Evento::TransferenciaAvaliada(a),
        Evento::Gravado,
        Evento::Gravado,
        Evento::Relogio { data, hora },
    ];
    assert(evs.drop_first().drop_first().drop_first().drop_first().drop_first().drop_first()
        =~= Seq::<Evento>::empty());
    let r = atendimento(p, evs);
    assert(r.1 =~= seq![
        Acao::Buscar(filtro_remetente(transferencia_de(p))),
        Acao::Buscar(filtro_destinatario(transferencia_de(p))),
        Acao::AvaliarTransferencia {
            saldo_remetente: remetente.saldo,
            saldo_destinatario: destinatario.saldo,
            quantia: transferencia_de(p).quantia,
        },
        Acao::GravarSaldo { filtro: filtro_remetente(transferencia_de(p)), saldo: a.saldo_remetente },
        Acao::GravarSaldo {
            filtro: filtro_destinatario(transferencia_de(p)),
            saldo: a.saldo_destinatario,
        },
        consultar_relogio(),
        responder(
            200,
            Corpo::Transferencia(
                ConclusaoTransferencia {
                    modo: transferencia_de(p).modo,
                    remetente: transferencia_de(p).remetente,
                    destinatario: transferencia_de(p).destinatario,
                    quantia: transferencia_de(p).quantia,
                    data,
                    hora,
                },
            ),
        ),
    ]);
}

/// A transfer whose sender is not found answers 404 after that lookup and
/// does nothing else.
pub proof fn lei_remetente_ausente(p: Pedido)
    requires
        eh_transferencia(p),
    ensures
        atendimento(p, seq![Evento::Encontrado(None)]) == (
            Etapa::Encerrada,
            seq![
                Acao::Buscar(filtro_remetente(transferencia_de(p))),
                responder(404, Corpo::Texto(remetente_ausente(transferencia_de(p)))),
            ],
        ),
{
    reveal_with_fuel(percurso, 2);
    let evs = seq![Evento::Encontrado(None)];
    assert(evs.drop_first() =~= Seq::<Evento>::empty());
    assert(atendimento(p, evs).1 =~= seq![
        Acao::Buscar(filtro_remetente(transferencia_de(p))),
        responder(404, Corpo::Texto(remetente_ausente(transferencia_de(p)))),
    ]);
}

/// A transfer whose recipient is not found answers 404 after the two
/// lookups and does nothing else.
pub proof fn lei_destinatario_ausente(p: Pedido, remetente: Cliente)
    requires
        eh_transferencia(p),
    ensures
        atendimento(p, seq![Evento::Encontrado(Some(remetente)), Evento::Encontrado(None)]) == (
            Etapa::Encerrada,
            seq![
                Acao::Buscar(filtro_remetente(transferencia_de(p))),
                Acao::Buscar(filtro_destinatario(transferencia_de(p))),
                responder(404, Corpo::Texto(destinatario_ausente(transferencia_de(p)))),
            ],
        ),
{
    reveal_with_fuel(percurso, 3);
    let evs = seq![Evento::Encontrado(Some(remetente)), Evento::Encontrado(None)];
    assert(evs.drop_first().drop_first() =~= Seq::<Evento>::empty());
    assert(atendimento(p, evs).1 =~= seq![
        Acao::Buscar(filtro_remetente(transferencia_de(p))),
        Acao::Buscar(filtro_destinatario(transferencia_de(p))),
        responder(404, Corpo::Texto(destinatario_ausente(transferencia_de(p)))),
    ]);
}

/// A transfer whose balances do not allow it answers 406 right after the
/// evaluation and stores nothing: "balance too low" when the sender's
/// balance is below the amount (whatever the sign of the amount), else
/// "negative amount".
pub proof fn lei_transferencia_recusada(
    p: Pedido,
    remetente: Cliente,
    destinatario: Cliente,
    a: Avaliacao,
)
    requires
        eh_transferencia(p),
        !permitida(a),
    ensures
        ({
            let q = transferencia_de(p);
            let m = if a.saldo_insuficiente {
                Mensagem::SaldoInsuficiente
            } else {
                Mensagem::TransferenciaNegativa
            };
            atendimento(
                p,
                seq![
                    Evento::Encontrado(Some(remetente)),
                    Evento::Encontrado(Some(destinatario)),
                    Evento::TransferenciaAvaliada(a),
                ],
            ) == (
                Etapa::Encerrada,
                seq![
                    Acao::Buscar(filtro_remetente(q)),
                    Acao::Buscar(filtro_destinatario(q)),
                    Acao::AvaliarTransferencia {
                        saldo_remetente: remetente.saldo,
                        saldo_destinatario: destinatario.saldo,
                        quantia: q.quantia,
                    },
                    responder(406, Corpo::Texto(m)),
                ],
            )
        }),
{
    reveal_with_fuel(percurso, 4);
    let q = transferencia_de(p);
    let m = if a.saldo_insuficiente {
        Mensagem::SaldoInsuficiente
    } else {
        Mensagem::TransferenciaNegativa
    };
    let evs = seq![
        Evento::Encontrado(Some(remetente)),
        Evento::Encontrado(Some(destinatario)),
        Evento::TransferenciaAvaliada(a),
    ];
    assert(evs.drop_first().drop_first().drop_first() =~= Seq::<Evento>::empty());
    assert(atendimento(p, evs).1 =~= seq![
        Acao::Buscar(filtro_remetente(q)),
        Acao::Buscar(filtro_destinatario(q)),
        Acao::AvaliarTransferencia {
            saldo_remetente: remetente.saldo,
            saldo_destinatario: destinatario.saldo,
            quantia: q.quantia,
        },
        responder(406, Corpo::Texto(m)),
    ]);
}

/// A deposit of a non-negative amount into an account that is found credits
/// the account of the customer found, reads the clock and answers 200 with
/// that account.
pub proof fn lei_deposito_realizado(conta: String, titular: Cliente, data: String, hora: String)
    ensures
        atendimento(
            Pedido::Deposito(conta),
            seq![
                Evento::DepositoAvaliado { quantia_negativa: false },
                Evento::Encontrado(Some(titular)),
                Evento::Gravado,
                Evento::Relogio { data, hora },
            ],
        ) == (
            Etapa::Encerrada,
            seq![
                Acao::AvaliarDeposito,
                Acao::Buscar(Filtro { campo: Campo::Conta, valor: conta }),
                Acao::CreditarDeposito(Filtro { campo: Campo::Conta, valor: titular.conta }),
                consultar_relogio(),
                responder(
                    200,
                    Corpo::Deposito(
                        ConfirmacaoDeposito {
                            mensagem: Mensagem::DepositoRealizado,
                            conta: titular.conta,
                            data,
                            hora,
                        },
                    ),
                ),
            ],
        ),
{
    reveal_with_fuel(percurso, 5);
    let evs = seq![
        Evento::DepositoAvaliado { quantia_negativa: false },
        Evento::Encontrado(Some(titular)),
        Evento::Gravado,
        Evento::Relogio { data, hora },
    ];
    assert(evs.drop_first().drop_first().drop_first().drop_first() =~= Seq::<Evento>::empty());
    assert(atendimento(Pedido::Deposito(conta), evs).1 =~= seq![
        Acao::AvaliarDeposito,
        Acao::Buscar(Filtro { campo: Campo::Conta, valor: conta }),
        Acao::CreditarDeposito(Filtro { campo: Campo::Conta, valor: titular.conta }),
        consultar_relogio(),
        responder(
            200,
            Corpo::Deposito(
                        ConfirmacaoDeposito {
                            mensagem: Mensagem::DepositoRealizado,
                            conta: titular.conta,
                            data,
                            hora,
                        },
                    ),
        ),
    ]);
}

/// A deposit of a negative amount answers 406 before any lookup.
pub proof fn lei_deposito_negativo(conta: String)
    ensures
        atendimento(
            Pedido::Deposito(conta),
            seq![Evento::DepositoAvaliado { quantia_negativa: true }],
        ) == (
            Etapa::Encerrada,
            seq![
                Acao::AvaliarDeposito,
                responder(406, Corpo::Texto(Mensagem::DepositoNegativo)),
            ],
        ),
{
    reveal_with_fuel(percurso, 2);
    let evs = seq![Evento::DepositoAvaliado { quantia_negativa: true }];
    assert(evs.drop_first() =~= Seq::<Evento>::empty());
    assert(atendimento(Pedido::Deposito(conta), evs).1 =~= seq![
        Acao::AvaliarDeposito,
        responder(406, Corpo::Texto(Mensagem::DepositoNegativo)),
    ]);
}

/// A deposit into an account that is not found answers 404 and credits
/// nothing.
pub proof fn lei_depositante_ausente(conta: String)
    ensures
        atendimento(
            Pedido::Deposito(conta),
            seq![Evento::DepositoAvaliado { quantia_negativa: false }, Evento::Encontrado(None)],
        ) == (
            Etapa::Encerrada,
            seq![
                Acao::AvaliarDeposito,
                Acao::Buscar(Filtro { campo: Campo::Conta, valor: conta }),
                responder(404, Corpo::Texto(Mensagem::DepositanteAusente)),
            ],
        ),
{
    reveal_with_fuel(percurso, 3);
    let evs = seq![Evento::DepositoAvaliado { quantia_negativa: false }, Evento::Encontrado(None)];
    assert(evs.drop_first().drop_first() =~= Seq::<Evento>::empty());
    assert(atendimento(Pedido::Deposito(conta), evs).1 =~= seq![
        Acao::AvaliarDeposito,
        Acao::Buscar(Filtro { campo: Campo::Conta, valor: conta }),
        responder(404, Corpo::Texto(Mensagem::DepositanteAusente)),
    ]);
}

/// A lookup by CPF that finds nobody answers 404 "no PIX key" for the PIX
/// data, and 200 with the JSON string "no account" for the three others.
pub proof fn lei_titular_ausente(k: Consulta, cpf: String)
    ensures
        atendimento(Pedido::Exibicao(k, cpf), seq![Evento::Encontrado(None)]) == (
            Etapa::Encerrada,
            seq![
                Acao::Buscar(Filtro { campo: Campo::Cpf, valor: cpf }),
                if k == Consulta::Pix {
                    responder(404, Corpo::Texto(Mensagem::PixNaoEncontrado))
                } else {
                    responder(200, Corpo::JsonMensagem(Mensagem::ContaNaoEncontrada))
                },
            ],
        ),
{
    reveal_with_fuel(percurso, 2);
    let evs = seq![Evento::Encontrado(None)];
    assert(evs.drop_first() =~= Seq::<Evento>::empty());
    assert(atendimento(Pedido::Exibicao(k, cpf), evs).1 =~= seq![
        Acao::Buscar(Filtro { campo: Campo::Cpf, valor: cpf }),
        if k == Consulta::Pix {
            responder(404, Corpo::Texto(Mensagem::PixNaoEncontrado))
        } else {
            responder(200, Corpo::JsonMensagem(Mensagem::ContaNaoEncontrada))
        },
    ]);
}

/// The customer found by CPF is shown as its TED/DOC data (name, CPF,
/// account) or its PIX data (name, PIX key), with status 200.
pub proof fn lei_exibicao(k: Consulta, cpf: String, titular: Cliente)
    requires
        k == Consulta::Ted || k == Consulta::Pix,
    ensures
        atendimento(Pedido::Exibicao(k, cpf), seq![Evento::Encontrado(Some(titular))]) == (
            Etapa::Encerrada,
            seq![
                Acao::Buscar(Filtro { campo: Campo::Cpf, valor: cpf }),
                if k == Consulta::Ted {
                    responder(200, Corpo::Ted(dados_ted_de(titular)))
                } else {
                    responder(200, Corpo::Pix(dados_pix_de(titular)))
                },
            ],
        ),
{
    reveal_with_fuel(percurso, 2);
    let evs = seq![Evento::Encontrado(Some(titular))];
    assert(evs.drop_first() =~= Seq::<Evento>::empty());
    assert(atendimento(Pedido::Exibicao(k, cpf), evs).1 =~= seq![
        Acao::Buscar(Filtro { campo: Campo::Cpf, valor: cpf }),
        if k == Consulta::Ted {
            responder(200, Corpo::Ted(dados_ted_de(titular)))
        } else {
            responder(200, Corpo::Pix(dados_pix_de(titular)))
        },
    ]);
}

/// The customer found by CPF, for a QR code: its TED/DOC (or PIX) data is
/// written as a JSON text, that text goes into the QR code file of that
/// kind, and the answer is 200 with the text as a JSON string.
pub proof fn lei_exibicao_qr(k: Consulta, cpf: String, titular: Cliente, json: String)
    requires
        k == Consulta::TedQr || k == Consulta::PixQr,
    ensures
        ({
            let (dados, arquivo) = if k == Consulta::TedQr {
                (DadosQr::Ted(dados_ted_de(titular)), ArquivoQr::Ted)
            } else {
                (DadosQr::Pix(dados_pix_de(titular)), ArquivoQr::Pix)
            };
            atendimento(
                Pedido::Exibicao(k, cpf),
                seq![Evento::Encontrado(Some(titular)), Evento::Serializado(json), Evento::QrGerado],
            ) == (
                Etapa::Encerrada,
                seq![
                    Acao::Buscar(Filtro { campo: Campo::Cpf, valor: cpf }),
                    Acao::Serializar(dados),
                    gerar_qr(json, arquivo),
                    responder(200, Corpo::JsonTexto(json)),
                ],
            )
        }),
{
    reveal_with_fuel(percurso, 4);
    let (dados, arquivo) = if k == Consulta::TedQr {
        (DadosQr::Ted(dados_ted_de(titular)), ArquivoQr::Ted)
    } else {
        (DadosQr::Pix(dados_pix_de(titular)), ArquivoQr::Pix)
    };
    let evs = seq![Evento::Encontrado(Some(titular)), Evento::Serializado(json), Evento::QrGerado];
    assert(evs.drop_first().drop_first().drop_first() =~= Seq::<Evento>::empty());
    assert(atendimento(Pedido::Exibicao(k, cpf), evs).1 =~= seq![
        Acao::Buscar(Filtro { campo: Campo::Cpf, valor: cpf }),
        Acao::Serializar(dados),
        gerar_qr(json, arquivo),
        responder(200, Corpo::JsonTexto(json)),
    ]);
}

/// A new customer is stored as it was sent, and the answer is 201 with no body.
pub proof fn lei_cadastro(c: Cliente)
    ensures
        atendimento(Pedido::Cadastro(c), seq![Evento::Inserido]) == (
            Etapa::Encerrada,
            seq![Acao::Inserir(c), responder(201, Corpo::Vazio)],
        ),
{
    reveal_with_fuel(percurso, 2);
    let evs = seq![Evento::Inserido];
    assert(evs.drop_first() =~= Seq::<Evento>::empty());
    assert(atendimento(Pedido::Cadastro(c), evs).1 =~= seq![
        Acao::Inserir(c),
        responder(201, Corpo::Vazio),
    ]);
}

/// The listing reads every customer and answers 200 with what was read
/// (of which the body holds those read without error, see `clientes_validos`).
pub proof fn lei_listagem(lidos: Vec<Option<Cliente>>)
    ensures
        atendimento(Pedido::Listagem, seq![Evento::Lista(lidos)]) == (
            Etapa::Encerrada,
            seq![Acao::BuscarTodos, responder(200, Corpo::Clientes(lidos))],
        ),
{
    reveal_with_fuel(percurso, 2);
    let evs = seq![Evento::Lista(lidos)];
    assert(evs.drop_first() =~= Seq::<Evento>::empty());
    assert(atendimento(Pedido::Listagem, evs).1 =~= seq![
        Acao::BuscarTodos,
        responder(200, Corpo::Clientes(lidos)),
    ]);
}

/// The greeting is answered at once.
pub proof fn lei_saudacao()
    ensures
        atendimento(Pedido::Saudacao, Seq::empty()) == (
            Etapa::Encerrada,
            seq![responder(200, Corpo::Texto(Mensagem::Saudacao))],
        ),
{
    assert(atendimento(Pedido::Saudacao, Seq::empty()).1 =~= seq![
        responder(200, Corpo::Texto(Mensagem::Saudacao)),
    ]);
}

/// Once answered, a request asks for nothing more, whatever is reported.
pub proof fn lei_encerrada(ev: Evento)
    ensures
        passo(Etapa::Encerrada, ev) == (Etapa::Encerrada, Acao::Nenhuma),
{
}

/// A report that does not answer the pending work is ignored: the stage
/// stays and the same work is asked again.
pub proof fn lei_relato_inesperado(e: Etapa, ev: Evento)
    requires
        !esperado(e, ev),
    ensures
        passo(e, ev) == (e, pendente(e)),
{
}

/// A transfer that names the same party as sender and recipient (the same
/// account, or the same PIX key), allowed by its balances, writes no balance (the debit and the credit cancel out): after the evaluation
/// it reads the clock and answers 200.
pub proof fn lei_transferencia_para_si(
    p: Pedido,
    remetente: Cliente,
    destinatario: Cliente,
    a: Avaliacao,
    data: String,
    hora: String,
)
    requires
        eh_transferencia(p),
        permitida(a),
        para_si(transferencia_de(p)),
    ensures
        ({
            let q = transferencia_de(p);
            atendimento(
                p,
                seq![
                    Evento::Encontrado(Some(remetente)),
                    Evento::Encontrado(Some(destinatario)),
                    Evento::TransferenciaAvaliada(a),
                    Evento::Relogio { data, hora },
                ],
            ) == (
                Etapa::Encerrada,
                seq![
                    Acao::Buscar(filtro_remetente(q)),
                    Acao::Buscar(filtro_destinatario(q)),
                    Acao::AvaliarTransferencia {
                        saldo_remetente: remetente.saldo,
                        saldo_destinatario: destinatario.saldo,
                        quantia: q.quantia,
                    },
                    consultar_relogio(),
                    responder(
                        200,
                        Corpo::Transferencia(
                            ConclusaoTransferencia {
                                modo: q.modo,
                                remetente: q.remetente,
                                destinatario: q.destinatario,
                                quantia: q.quantia,
                                data,
                                hora,
                            },
                        ),
                    ),
                ],
            )
        }),
{
    reveal_with_fuel(percurso, 5);
    let q = transferencia_de(p);
    let evs = seq![
        Evento::Encontrado(Some(remetente)),
        Evento::Encontrado(Some(destinatario)),
        Evento::TransferenciaAvaliada(a),
        Evento::Relogio { data, hora },
    ];
    assert(evs.drop_first().drop_first().drop_first().drop_first() =~= Seq::<Evento>::empty());
    assert(atendimento(p, evs).1 =~= seq![
        Acao::Buscar(filtro_remetente(q)),
        Acao::Buscar(filtro_destinatario(q)),
        Acao::AvaliarTransferencia {
            saldo_remetente: remetente.saldo,
            saldo_destinatario: destinatario.saldo,
            quantia: q.quantia,
        },
        consultar_relogio(),
        responder(
            200,
            Corpo::Transferencia(
                ConclusaoTransferencia {
                    modo: q.modo,
                    remetente: q.remetente,
                    destinatario: q.destinatario,
                    quantia: q.quantia,
                    data,
                    hora,
                },
            ),
        ),
    ]);
}

/// The report `ev` is an evaluation that allowed the transfer `q`, and
/// `acao` stores one of the two balances that it gave, for its party.
pub open spec fn avaliacao_autoriza(ev: Evento, q: PedidoTransferencia, acao: Acao) -> bool {
    match ev {
        Evento::TransferenciaAvaliada(a) => permitida(a) && (acao == Acao::GravarSaldo {
            filtro: filtro_remetente(q),
            saldo: a.saldo_remetente,
        } || acao == Acao::GravarSaldo {
            filtro: filtro_destinatario(q),
            saldo: a.saldo_destinatario,
        }),
        _ => false,
    }
}

/// The report `ev` found the customer whose account `acao` credits.
pub open spec fn titular_creditado(ev: Evento, acao: Acao) -> bool {
    match ev {
        Evento::Encontrado(Some(c)) => acao == Acao::CreditarDeposito(
            Filtro { campo: Campo::Conta, valor: c.conta },
        ),
        _ => false,
    }
}

/// The report `ev` found a customer.
pub open spec fn encontrou(ev: Evento) -> bool {
    ev matches Evento::Encontrado(Some(_))
}

/// Some report of `h` is an evaluation that allowed transfer `q` and gave
/// the balance that `acao` stores.
pub open spec fn avaliado_antes(h: Seq<Evento>, q: PedidoTransferencia, acao: Acao) -> bool {
    exists|j: int| 0 <= j < h.len() && #[trigger] avaliacao_autoriza(h[j], q, acao)
}

/// Some report of `h` found a customer.
pub open spec fn achou_antes(h: Seq<Evento>) -> bool {
    exists|j: int| 0 <= j < h.len() && #[trigger] encontrou(h[j])
}

/// Some report of `h` found the customer whose account `acao` credits.
pub open spec fn titular_antes(h: Seq<Evento>, acao: Acao) -> bool {
    exists|j: int| 0 <= j < h.len() && #[trigger] titular_creditado(h[j], acao)
}

/// `ev` is one of the reports `h`.
pub open spec fn relatou(h: Seq<Evento>, ev: Evento) -> bool {
    exists|j: int| 0 <= j < h.len() && #[trigger] h[j] == ev
}

/// The QR code file that a lookup by CPF writes, if any.
pub open spec fn arquivo_da_consulta(k: Consulta) -> Option<ArquivoQr> {
    match k {
        Consulta::TedQr => Some(ArquivoQr::Ted),
        Consulta::PixQr => Some(ArquivoQr::Pix),
        _ => None,
    }
}

/// Of the work asked for by request `p` once the reports `h` came in:
/// - a balance is set only by a transfer between two different parties,
///   only for its sender or recipient, and only as given by a reported
///   evaluation that allowed it;
/// - an account is credited only by a deposit, only after the amount was
///   reported not negative, and only the account of a customer that a
///   lookup reported;
/// - a customer is stored only by a registration, and only the one sent;
/// - a QR code is written only by the QR variants of the lookup by CPF,
///   each into its own file, and only after a customer was found.
pub open spec fn acao_autorizada(p: Pedido, acao: Acao, h: Seq<Evento>) -> bool {
    &&& acao is GravarSaldo ==> {
        &&& eh_transferencia(p)
        &&& avaliado_antes(h, transferencia_de(p), acao)
        &&& !para_si(transferencia_de(p))
    }
    &&& acao is CreditarDeposito ==> {
        &&& p is Deposito
        &&& relatou(h, Evento::DepositoAvaliado { quantia_negativa: false })
        &&& titular_antes(h, acao)
    }
    &&& acao is Inserir ==> p == Pedido::Cadastro(acao->Inserir_0)
    &&& acao is GerarQr ==> {
        &&& p is Exibicao
        &&& arquivo_da_consulta(p->Exibicao_0) == Some(acao->arquivo)
        &&& achou_antes(h)
    }
}

/// What a stage reached by request `p` after reports `h` carries.
spec fn coerente(p: Pedido, e: Etapa, h: Seq<Evento>) -> bool {
    match e {
        Etapa::Inserindo(c) => p == Pedido::Cadastro(c),
        Etapa::BuscandoRemetente(q) => eh_transferencia(p) && q == transferencia_de(p),
        Etapa::BuscandoDestinatario(q, r) => eh_transferencia(p) && q == transferencia_de(p)
            && relatou(h, Evento::Encontrado(Some(r))),
        Etapa::AvaliandoTransferencia(q, r, d) => eh_transferencia(p) && q
            == transferencia_de(p) && relatou(h, Evento::Encontrado(Some(r))) && relatou(
            h,
            Evento::Encontrado(Some(d)),
        ),
        Etapa::GravandoRemetente(q, r, d, a) => eh_transferencia(p) && q == transferencia_de(p)
            && permitida(a) && relatou(h, Evento::TransferenciaAvaliada(a)) && relatou(
            h,
            Evento::Encontrado(Some(r)),
        ) && relatou(h, Evento::Encontrado(Some(d))) && !para_si(q),
        Etapa::GravandoDestinatario(q, r, d, a) => eh_transferencia(p) && q == transferencia_de(
            p,
        ) && permitida(a) && relatou(h, Evento::TransferenciaAvaliada(a)) && relatou(
            h,
            Evento::Encontrado(Some(r)),
        ) && relatou(h, Evento::Encontrado(Some(d))) && !para_si(q),
        Etapa::AvaliandoDeposito(_) => p is Deposito,
        Etapa::BuscandoDepositante(_) => p is Deposito && relatou(
            h,
            Evento::DepositoAvaliado { quantia_negativa: false },
        ),
        Etapa::Creditando(c) => p is Deposito && relatou(
            h,
            Evento::DepositoAvaliado { quantia_negativa: false },
        ) && relatou(h, Evento::Encontrado(Some(c))),
        Etapa::BuscandoTitular(k, _) => p is Exibicao && p->Exibicao_0 == k,
        Etapa::Serializando(d) => p is Exibicao && arquivo_da_consulta(p->Exibicao_0) == Some(
            arquivo_de(d),
        ) && achou_antes(h),
        Etapa::GerandoQr(_, arquivo) => p is Exibicao && arquivo_da_consulta(p->Exibicao_0)
            == Some(arquivo) && achou_antes(h),
        _ => true,
    }
}

proof fn lema_relatos_crescem(h: Seq<Evento>, ev: Evento)
    ensures
        forall|x: Evento| #[trigger] relatou(h, x) ==> relatou(h.push(ev), x),
        relatou(h.push(ev), ev),
        achou_antes(h) ==> achou_antes(h.push(ev)),
        encontrou(ev) ==> achou_antes(h.push(ev)),
{
    let h2 = h.push(ev);
    if achou_antes(h) {
        let j = choose|j: int| 0 <= j < h.len() && #[trigger] encontrou(h[j]);
        assert(h2[j] == h[j]);
    }
    if encontrou(ev) {
        assert(encontrou(h2[h.len() as int]));
    }
    assert forall|x: Evento| #[trigger] relatou(h, x) implies relatou(h2, x) by {
        let j = choose|j: int| 0 <= j < h.len() && #[trigger] h[j] == x;
        assert(h2[j] == h[j]);
    }
    assert(h2[h.len() as int] == ev);
}

proof fn lema_pendente(p: Pedido, e: Etapa, h: Seq<Evento>)
    requires
        coerente(p, e, h),
    ensures
        acao_autorizada(p, pendente(e), h),
{
    match e {
        Etapa::GravandoRemetente(q, r, d, a) => {
            let j = choose|j: int| 0 <= j < h.len() && #[trigger] h[j]
                == Evento::TransferenciaAvaliada(a);
            assert(avaliacao_autoriza(h[j], transferencia_de(p), pendente(e)));
        },
        Etapa::GravandoDestinatario(q, r, d, a) => {
            let j = choose|j: int| 0 <= j < h.len() && #[trigger] h[j]
                == Evento::TransferenciaAvaliada(a);
            assert(avaliacao_autoriza(h[j], transferencia_de(p), pendente(e)));
        },
        Etapa::Creditando(c) => {
            let j = choose|j: int| 0 <= j < h.len() && #[trigger] h[j] == Evento::Encontrado(Some(c));
            assert(titular_creditado(h[j], pendente(e)));
        },
        _ => {},
    }
}

proof fn lema_passo(p: Pedido, e: Etapa, h: Seq<Evento>, ev: Evento)
    requires
        coerente(p, e, h),
    ensures
        coerente(p, passo(e, ev).0, h.push(ev)),
        acao_autorizada(p, passo(e, ev).1, h.push(ev)),
{
    lema_relatos_crescem(h, ev);
    let h2 = h.push(ev);
    let e1 = passo(e, ev).0;
    assert(coerente(p, e1, h2));
    if passo(e, ev).1 == pendente(e1) {
        lema_pendente(p, e1, h2);
    }
}

proof fn lema_tamanho(e: Etapa, evs: Seq<Evento>)
    ensures
        percurso(e, evs).1.len() == evs.len(),
    decreases evs.len(),
{
    if evs.len() > 0 {
        lema_tamanho(passo(e, evs[0]).0, evs.drop_first());
    }
}

proof fn lema_percurso(p: Pedido, e: Etapa, h: Seq<Evento>, evs: Seq<Evento>)
    requires
        coerente(p, e, h),
    ensures
        forall|i: int|
            0 <= i < evs.len() ==> acao_autorizada(
                p,
                #[trigger] percurso(e, evs).1[i],
                h + evs.take(i + 1),
            ),
    decreases evs.len(),
{
    if evs.len() > 0 {
        let ev = evs[0];
        let resto = evs.drop_first();
        let (e1, a1) = passo(e, ev);
        lema_passo(p, e, h, ev);
        lema_percurso(p, e1, h.push(ev), resto);
        lema_tamanho(e1, resto);
        assert forall|i: int| 0 <= i < evs.len() implies acao_autorizada(
            p,
            #[trigger] percurso(e, evs).1[i],
            h + evs.take(i + 1),
        ) by {
            if i == 0 {
                assert(h + evs.take(1) =~= h.push(ev));
            } else {
                assert(percurso(e, evs).1[i] == percurso(e1, resto).1[i - 1]);
                assert(h.push(ev) + resto.take(i) =~= h + evs.take(i + 1));
            }
        }
    }
}

/// Each request writes only what it is for, whatever is reported, in
/// whatever order (see `acao_autorizada`): the `i`-th work asked for is
/// authorized by the reports that came in before it.
pub proof fn lei_escrita_autorizada(p: Pedido, evs: Seq<Evento>, i: int)
    requires
        0 <= i < atendimento(p, evs).1.len(),
    ensures
        acao_autorizada(p, atendimento(p, evs).1[i], evs.take(i)),
{
    let (e0, a0) = inicio(p);
    assert(coerente(p, e0, Seq::empty()));
    if i == 0 {
        if a0 == pendente(e0) {
            lema_pendente(p, e0, Seq::empty());
        }
        assert(evs.take(0) =~= Seq::<Evento>::empty());
    } else {
        lema_percurso(p, e0, Seq::empty(), evs);
        lema_tamanho(e0, evs);
        assert(atendimento(p, evs).1[i] == percurso(e0, evs).1[i - 1]);
        assert(Seq::<Evento>::empty() + evs.take(i) =~= evs.take(i));
    }
}

/// Looking up a customer by CPF, listing the customers and the greeting
/// store nothing, set no balance and credit no account, whatever is
/// reported; only the QR variants of the lookup write a QR code, the TED/DOC
/// one into the TED/DOC file and the PIX one into the PIX file.
pub proof fn lei_consultas_nao_gravam(p: Pedido, evs: Seq<Evento>, i: int)
    requires
        p is Exibicao || p is Listagem || p is Saudacao,
        0 <= i < atendimento(p, evs).1.len(),
    ensures
        ({
            let acao = atendimento(p, evs).1[i];
            &&& !(acao is Inserir)
            &&& !(acao is GravarSaldo)
            &&& !(acao is CreditarDeposito)
            &&& acao is GerarQr ==> p is Exibicao && arquivo_da_consulta(p->Exibicao_0) == Some(
                acao->arquivo,
            )
        }),
{
    lei_escrita_autorizada(p, evs, i);
}

/// Work asked for by a transfer by account (`q1`) and by one by PIX key
/// (`q2`) that is the same but for the key: the same party is looked up or
/// gets the same balance, the answers have the same status, and everything
/// else is identical.
pub open spec fn mesma_obra(q1: PedidoTransferencia, q2: PedidoTransferencia, a1: Acao, a2: Acao) -> bool {
    match (a1, a2) {
        (Acao::Buscar(f1), Acao::Buscar(f2)) => (f1 == filtro_remetente(q1) && f2
            == filtro_remetente(q2)) || (f1 == filtro_destinatario(q1) && f2
            == filtro_destinatario(q2)),
        (
            Acao::GravarSaldo { filtro: f1, saldo: s1 },
            Acao::GravarSaldo { filtro: f2, saldo: s2 },
        ) => s1 == s2 && ((f1 == filtro_remetente(q1) && f2 == filtro_remetente(q2)) || (f1
            == filtro_destinatario(q1) && f2 == filtro_destinatario(q2))),
        (Acao::Responder(r1), Acao::Responder(r2)) => r1.status == r2.status
            && mesmo_corpo(q1, q2, r1.corpo, r2.corpo),
        _ => a1 == a2,
    }
}

/// Answers of a transfer by account (`q1`) and of one by PIX key (`q2`)
/// that differ only in wording: the message for a missing party names
/// the same party, and a completed transfer has the same amount, date and
/// time, its kind and its parties being each request's own.
pub open spec fn mesmo_corpo(
    q1: PedidoTransferencia,
    q2: PedidoTransferencia,
    c1: Corpo,
    c2: Corpo,
) -> bool {
    match (c1, c2) {
        (Corpo::Texto(m1), Corpo::Texto(m2)) => (m1 == remetente_ausente(q1) && m2
            == remetente_ausente(q2)) || (m1 == destinatario_ausente(q1) && m2
            == destinatario_ausente(q2)) || m1 == m2,
        (Corpo::Transferencia(x1), Corpo::Transferencia(x2)) => {
            &&& x1.modo == q1.modo && x2.modo == q2.modo
            &&& x1.remetente == q1.remetente && x2.remetente == q2.remetente
            &&& x1.destinatario == q1.destinatario && x2.destinatario == q2.destinatario
            &&& x1.quantia == x2.quantia
            &&& x1.data == x2.data
            &&& x1.hora == x2.hora
        },
        _ => c1 == c2,
    }
}

/// The stages of the two transfers match: same kind of stage, same
/// customers found, same evaluation.
spec fn correspondem(q1: PedidoTransferencia, q2: PedidoTransferencia, e1: Etapa, e2: Etapa) -> bool {
    match (e1, e2) {
        (Etapa::Encerrada, Etapa::Encerrada) => true,
        (Etapa::BuscandoRemetente(x1), Etapa::BuscandoRemetente(x2)) => x1 == q1 && x2 == q2,
        (Etapa::BuscandoDestinatario(x1, r1), Etapa::BuscandoDestinatario(x2, r2)) => x1 == q1
            && x2 == q2 && r1 == r2,
        (
            Etapa::AvaliandoTransferencia(x1, r1, d1),
            Etapa::AvaliandoTransferencia(x2, r2, d2),
        ) => x1 == q1 && x2 == q2 && r1 == r2 && d1 == d2,
        (
            Etapa::GravandoRemetente(x1, r1, d1, a1),
            Etapa::GravandoRemetente(x2, r2, d2, a2),
        ) => x1 == q1 && x2 == q2 && r1 == r2 && d1 == d2 && a1 == a2,
        (
            Etapa::GravandoDestinatario(x1, r1, d1, a1),
            Etapa::GravandoDestinatario(x2, r2, d2, a2),
        ) => x1 == q1 && x2 == q2 && r1 == r2 && d1 == d2 && a1 == a2,
        (Etapa::DatandoTransferencia(x1), Etapa::DatandoTransferencia(x2)) => x1 == q1 && x2
            == q2,
        _ => false,
    }
}

proof fn lema_correspondencia(
    q1: PedidoTransferencia,
    q2: PedidoTransferencia,
    e1: Etapa,
    e2: Etapa,
    evs: Seq<Evento>,
)
    requires
        q1.quantia == q2.quantia,
        para_si(q1) == para_si(q2),
        q1.modo == Modo::Conta,
        q2.modo == Modo::Pix,
        correspondem(q1, q2, e1, e2),
    ensures
        percurso(e1, evs).1.len() == percurso(e2, evs).1.len(),
        forall|i: int|
            0 <= i < evs.len() ==> mesma_obra(
                q1,
                q2,
                #[trigger] percurso(e1, evs).1[i],
                percurso(e2, evs).1[i],
            ),
    decreases evs.len(),
{
    lema_tamanho(e1, evs);
    lema_tamanho(e2, evs);
    if evs.len() > 0 {
        let ev = evs[0];
        let resto = evs.drop_first();
        let (f1, b1) = passo(e1, ev);
        let (f2, b2) = passo(e2, ev);
        assert(esperado(e1, ev) == esperado(e2, ev));
        assert(correspondem(q1, q2, f1, f2));
        assert(mesma_obra(q1, q2, b1, b2));
        lema_correspondencia(q1, q2, f1, f2, resto);
        assert forall|i: int| 0 <= i < evs.len() implies mesma_obra(
            q1,
            q2,
            #[trigger] percurso(e1, evs).1[i],
            percurso(e2, evs).1[i],
        ) by {
            if i > 0 {
                assert(percurso(e1, evs).1[i] == percurso(f1, resto).1[i - 1]);
                assert(percurso(e2, evs).1[i] == percurso(f2, resto).1[i - 1]);
            }
        }
    }
}

/// A transfer by PIX key and one by account with the same amount, each
/// naming one party twice or two different parties alike, given the same
/// reports, ask for the same work on the same parties and answer with the
/// same status; they differ only in the keys looked up and in the wording
/// of the answers (see `mesma_obra` and `mesmo_corpo`).
pub proof fn lei_pix_como_conta(t1: TransfConta, t2: TransfPix, evs: Seq<Evento>)
    requires
        t1.quantia == t2.quantia,
        (t1.conta_remetente@ == t1.conta_destinatario@) == (t2.pix_remetente@
            == t2.pix_destinatario@),
    ensures
        ({
            let q1 = pedido_de_conta(t1);
            let q2 = pedido_de_pix(t2);
            let a1 = atendimento(Pedido::TransfConta(t1), evs).1;
            let a2 = atendimento(Pedido::TransfPix(t2), evs).1;
            &&& a1.len() == a2.len()
            &&& forall|i: int| 0 <= i < a1.len() ==> mesma_obra(q1, q2, #[trigger] a1[i], a2[i])
        }),
{
    let q1 = pedido_de_conta(t1);
    let q2 = pedido_de_pix(t2);
    let e1 = Etapa::BuscandoRemetente(q1);
    let e2 = Etapa::BuscandoRemetente(q2);
    lema_correspondencia(q1, q2, e1, e2, evs);
    lema_tamanho(e1, evs);
    let a1 = atendimento(Pedido::TransfConta(t1), evs).1;
    let a2 = atendimento(Pedido::TransfPix(t2), evs).1;
    assert forall|i: int| 0 <= i < a1.len() implies mesma_obra(q1, q2, #[trigger] a1[i], a2[i]) by {
        if i > 0 {
            assert(a1[i] == percurso(e1, evs).1[i - 1]);
            assert(a2[i] == percurso(e2, evs).1[i - 1]);
        }
    }
}

/// How far a handling is: 0 before any balance write can be asked, 1 once
/// a transfer writes (or skips writing) balances, 2 once answered.
spec fn fase(e: Etapa) -> int {
    match e {
        Etapa::Encerrada => 2,
        Etapa::GravandoRemetente(_, _, _, _) => 1,
        Etapa::GravandoDestinatario(_, _, _, _) => 1,
        Etapa::DatandoTransferencia(_) => 1,
        _ => 0,
    }
}

/// An answer other than 200.
pub open spec fn recusa(a: Acao) -> bool {
    a matches Acao::Responder(r) && r.status != 200
}

proof fn lema_fase(e: Etapa, ev: Evento)
    ensures
        fase(e) <= fase(passo(e, ev).0),
        passo(e, ev).1 is GravarSaldo ==> fase(passo(e, ev).0) == 1,
        recusa(passo(e, ev).1) ==> fase(e) == 0 && passo(e, ev).0 is Encerrada,
        e is Encerrada ==> passo(e, ev) == (Etapa::Encerrada, Acao::Nenhuma),
{
}

proof fn lema_encerrada(evs: Seq<Evento>)
    ensures
        forall|i: int|
            0 <= i < evs.len() ==> #[trigger] percurso(Etapa::Encerrada, evs).1[i]
                == Acao::Nenhuma,
    decreases evs.len(),
{
    if evs.len() > 0 {
        lema_fase(Etapa::Encerrada, evs[0]);
        lema_encerrada(evs.drop_first());
        lema_tamanho(Etapa::Encerrada, evs.drop_first());
        assert forall|i: int| 0 <= i < evs.len() implies #[trigger] percurso(
            Etapa::Encerrada,
            evs,
        ).1[i] == Acao::Nenhuma by {
            if i > 0 {
                assert(percurso(Etapa::Encerrada, evs).1[i] == percurso(
                    Etapa::Encerrada,
                    evs.drop_first(),
                ).1[i - 1]);
            }
        }
    }
}

proof fn lema_recusa(e: Etapa, evs: Seq<Evento>, j: int)
    requires
        0 <= j < evs.len(),
        recusa(percurso(e, evs).1[j]),
    ensures
        fase(e) == 0,
        forall|i: int| 0 <= i < evs.len() ==> !(#[trigger] percurso(e, evs).1[i] is GravarSaldo),
    decreases evs.len(),
{
    lema_tamanho(e, evs);
    let ev = evs[0];
    let resto = evs.drop_first();
    let (e1, a1) = passo(e, ev);
    lema_fase(e, ev);
    lema_tamanho(e1, resto);
    if j == 0 {
        lema_encerrada(resto);
        assert forall|i: int| 0 <= i < evs.len() implies !(#[trigger] percurso(
            e,
            evs,
        ).1[i] is GravarSaldo) by {
            if i > 0 {
                assert(percurso(e, evs).1[i] == percurso(e1, resto).1[i - 1]);
            }
        }
    } else {
        assert(percurso(e, evs).1[j] == percurso(e1, resto).1[j - 1]);
        lema_recusa(e1, resto, j - 1);
        assert forall|i: int| 0 <= i < evs.len() implies !(#[trigger] percurso(
            e,
            evs,
        ).1[i] is GravarSaldo) by {
            if i > 0 {
                assert(percurso(e, evs).1[i] == percurso(e1, resto).1[i - 1]);
            }
        }
    }
}

/// A request answered with a status other than 200 (a refused or failed
/// transfer, a missing customer, a negative deposit) asked for no balance
/// write at any point, whatever was reported.
pub proof fn lei_recusa_sem_escrita(p: Pedido, evs: Seq<Evento>, j: int)
    requires
        0 <= j < atendimento(p, evs).1.len(),
        recusa(atendimento(p, evs).1[j]),
    ensures
        forall|i: int|
            0 <= i < atendimento(p, evs).1.len() ==> !(#[trigger] atendimento(p, evs).1[i] is GravarSaldo),
{
    let (e0, a0) = inicio(p);
    lema_tamanho(e0, evs);
    let acoes = atendimento(p, evs).1;
    assert(j > 0);
    assert(acoes[j] == percurso(e0, evs).1[j - 1]);
    lema_recusa(e0, evs, j - 1);
    assert forall|i: int| 0 <= i < acoes.len() implies !(#[trigger] acoes[i] is GravarSaldo) by {
        if i > 0 {
            assert(acoes[i] == percurso(e0, evs).1[i - 1]);
        }
    }
}

/// A TED/DOC request keeps its sender, amount and recipient as sent.
pub proof fn lei_pedido_de_conta(t: TransfConta)
    ensures
        pedido_de_conta(t).modo == Modo::Conta,
        pedido_de_conta(t).remetente == t.conta_remetente,
        pedido_de_conta(t).quantia == t.quantia,
        pedido_de_conta(t).destinatario == t.conta_destinatario,
{
}

/// A PIX request keeps its sender key, amount and recipient key as sent.
pub proof fn lei_pedido_de_pix(t: TransfPix)
    ensures
        pedido_de_pix(t).modo == Modo::Pix,
        pedido_de_pix(t).remetente == t.pix_remetente,
        pedido_de_pix(t).quantia == t.quantia,
        pedido_de_pix(t).destinatario == t.pix_destinatario,
{
}

/// A completed TED/DOC transfer between two different accounts looks up
/// the account sent as sender, then the one sent as recipient, debits the
/// first and credits the second with the evaluated balances, and its
/// receipt names them in that order with the amount as sent.
pub proof fn lei_transferencia_conta_partes(
    t: TransfConta,
    remetente: Cliente,
    destinatario: Cliente,
    a: Avaliacao,
    data: String,
    hora: String,
)
    requires
        permitida(a),
        t.conta_remetente@ != t.conta_destinatario@,
    ensures
        ({
            let acoes = atendimento(
                Pedido::TransfConta(t),
                seq![
                    Evento::Encontrado(Some(remetente)),
                    Evento::Encontrado(Some(destinatario)),
                    Evento::TransferenciaAvaliada(a),
                    Evento::Gravado,
                    Evento::Gravado,
                    Evento::Relogio { data, hora },
                ],
            ).1;
            &&& acoes.len() == 7
            &&& acoes[0] == Acao::Buscar(Filtro { campo: Campo::Conta, valor: t.conta_remetente })
            &&& acoes[1] == Acao::Buscar(
                Filtro { campo: Campo::Conta, valor: t.conta_destinatario },
            )
            &&& acoes[2] == Acao::AvaliarTransferencia {
                saldo_remetente: remetente.saldo,
                saldo_destinatario: destinatario.saldo,
                quantia: t.quantia,
            }
            &&& acoes[3] == Acao::GravarSaldo {
                filtro: Filtro { campo: Campo::Conta, valor: t.conta_remetente },
                saldo: a.saldo_remetente,
            }
            &&& acoes[4] == Acao::GravarSaldo {
                filtro: Filtro { campo: Campo::Conta, valor: t.conta_destinatario },
                saldo: a.saldo_destinatario,
            }
            &&& acoes[6] == responder(
                200,
                Corpo::Transferencia(
                    ConclusaoTransferencia {
                        modo: Modo::Conta,
                        remetente: t.conta_remetente,
                        destinatario: t.conta_destinatario,
                        quantia: t.quantia,
                        data,
                        hora,
                    },
                ),
            )
        }),
{
    lei_pedido_de_conta(t);
    lei_transferencia_concluida(Pedido::TransfConta(t), remetente, destinatario, a, data, hora);
}

/// A completed PIX transfer between two different keys looks up the key
/// sent as sender, then the one sent as recipient, debits the first and
/// credits the second with the evaluated balances, and its receipt names
/// them in that order with the amount as sent.
pub proof fn lei_transferencia_pix_partes(
    t: TransfPix,
    remetente: Cliente,
    destinatario: Cliente,
    a: Avaliacao,
    data: String,
    hora: String,
)
    requires
        permitida(a),
        t.pix_remetente@ != t.pix_destinatario@,
    ensures
        ({
            let acoes = atendimento(
                Pedido::TransfPix(t),
                seq![
                    Evento::Encontrado(Some(remetente)),
                    Evento::Encontrado(Some(destinatario)),
                    Evento::TransferenciaAvaliada(a),
                    Evento::Gravado,
                    Evento::Gravado,
                    Evento::Relogio { data, hora },
                ],
            ).1;
            &&& acoes.len() == 7
            &&& acoes[0] == Acao::Buscar(Filtro { campo: Campo::Pix, valor: t.pix_remetente })
            &&& acoes[1] == Acao::Buscar(Filtro { campo: Campo::Pix, valor: t.pix_destinatario })
            &&& acoes[2] == Acao::AvaliarTransferencia {
                saldo_remetente: remetente.saldo,
                saldo_destinatario: destinatario.saldo,
                quantia: t.quantia,
            }
            &&& acoes[3] == Acao::GravarSaldo {
                filtro: Filtro { campo: Campo::Pix, valor: t.pix_remetente },
                saldo: a.saldo_remetente,
            }
            &&& acoes[4] == Acao::GravarSaldo {
                filtro: Filtro { campo: Campo::Pix, valor: t.pix_destinatario },
                saldo: a.saldo_destinatario,
            }
            &&& acoes[6] == responder(
                200,
                Corpo::Transferencia(
                    ConclusaoTransferencia {
                        modo: Modo::Pix,
                        remetente: t.pix_remetente,
                        destinatario: t.pix_destinatario,
                        quantia: t.quantia,
                        data,
                        hora,
                    },
                ),
            )
        }),
{
    lei_pedido_de_pix(t);
    lei_transferencia_concluida(Pedido::TransfPix(t), remetente, destinatario, a, data, hora);
}

/// The TED/DOC data of a customer are its name, CPF and account; its PIX
/// data are its name and PIX key.
pub proof fn lei_dados_do_cliente(c: Cliente)
    ensures
        dados_ted_de(c).nome == c.nome,
        dados_ted_de(c).cpf == c.cpf,
        dados_ted_de(c).conta == c.conta,
        dados_pix_de(c).nome == c.nome,
        dados_pix_de(c).chave_pix == c.pix,
{
}

/// Showing the customer found by CPF answers with that customer's own name,
/// CPF and account (TED/DOC) or name and PIX key (PIX); the QR variants
/// write the same data.
pub proof fn lei_exibicao_campos(k: Consulta, cpf: String, c: Cliente)
    ensures
        ({
            let acoes = atendimento(Pedido::Exibicao(k, cpf), seq![Evento::Encontrado(Some(c))]).1;
            &&& acoes.len() == 2
            &&& k == Consulta::Ted ==> (acoes[1] matches Acao::Responder(r) && r.status == 200
                && (r.corpo matches Corpo::Ted(d) && d.nome == c.nome && d.cpf == c.cpf
                && d.conta == c.conta))
            &&& k == Consulta::Pix ==> (acoes[1] matches Acao::Responder(r) && r.status == 200
                && (r.corpo matches Corpo::Pix(d) && d.nome == c.nome && d.chave_pix == c.pix))
            &&& k == Consulta::TedQr ==> (acoes[1] matches Acao::Serializar(DadosQr::Ted(d))
                && d.nome == c.nome && d.cpf == c.cpf && d.conta == c.conta)
            &&& k == Consulta::PixQr ==> (acoes[1] matches Acao::Serializar(DadosQr::Pix(d))
                && d.nome == c.nome && d.chave_pix == c.pix)
        }),
{
    reveal_with_fuel(percurso, 2);
    lei_dados_do_cliente(c);
    let evs = seq![Evento::Encontrado(Some(c))];
    assert(evs.drop_first() =~= Seq::<Evento>::empty());
}

} // verus!
