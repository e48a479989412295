use vstd::prelude::*;

use crate::cliente::{Cliente, DadosTed, DadosPix, dados_ted_de, dados_pix_de};
use crate::mensagem::Mensagem;
use crate::transf::{
    TransfConta, TransfPix, Modo, PedidoTransferencia, Avaliacao, ConclusaoTransferencia,
    pedido_de_conta, pedido_de_pix,
};

verus! {

/// The field of a customer document that a lookup or an update filters on.
#[derive(PartialEq, Eq, Structural, Clone, Copy)]
pub enum Campo {
    Conta,
    Pix,
    Cpf,
}

pub open spec fn chave_de(c: Campo) -> Seq<char> {
    match c {
        Campo::Conta => "conta"@,
        Campo::Pix => "pix"@,
        Campo::Cpf => "cpf"@,
    }
}

impl Campo {
    /// The name of the field in a stored customer document.
    pub fn chave(&self) -> (r: String)
        ensures
            r@ == chave_de(*self),
    {
        match self {
            Campo::Conta => String::from_str("conta"),
            Campo::Pix => String::from_str("pix"),
            Campo::Cpf => String::from_str("cpf"),
        }
    }
}

/// "The customer whose `campo` equals `valor`".
pub struct Filtro {
    pub campo: Campo,
    pub valor: String,
}

/// The four ways of showing a customer's payment data, looked up by CPF.
#[derive(PartialEq, Eq, Structural, Clone, Copy)]
pub enum Consulta {
    /// TED/DOC data as JSON.
    Ted,
    /// PIX data as JSON; a missing customer is a 404.
    Pix,
    /// TED/DOC data as a JSON text, also written into a QR code image.
    TedQr,
    /// PIX data as a JSON text, also written into a QR code image.
    PixQr,
}

/// The image file that a QR code is written to.
#[derive(PartialEq, Eq, Structural, Clone, Copy)]
pub enum ArquivoQr {
    Ted,
    Pix,
}

pub open spec fn caminho_de(a: ArquivoQr) -> Seq<char> {
    match a {
        ArquivoQr::Ted => "data/QRs/dados_ted.png"@,
        ArquivoQr::Pix => "data/QRs/dados_pix.png"@,
    }
}

impl ArquivoQr {
    /// The path of the image file.
    pub fn caminho(&self) -> (r: String)
        ensures
            r@ == caminho_de(*self),
    {
        match self {
            ArquivoQr::Ted => String::from_str("data/QRs/dados_ted.png"),
            ArquivoQr::Pix => String::from_str("data/QRs/dados_pix.png"),
        }
    }
}

/// Payment data that goes into a QR code.
pub enum DadosQr {
    Ted(DadosTed),
    Pix(DadosPix),
}

pub open spec fn arquivo_de(d: DadosQr) -> ArquivoQr {
    match d {
        DadosQr::Ted(_) => ArquivoQr::Ted,
        DadosQr::Pix(_) => ArquivoQr::Pix,
    }
}

impl DadosQr {
    /// A field-by-field copy.
    pub fn clonar(&self) -> (r: DadosQr)
        ensures
            r == *self,
    {
        match self {
            DadosQr::Ted(d) => DadosQr::Ted(
                DadosTed { nome: d.nome.clone(), cpf: d.cpf.clone(), conta: d.conta.clone() },
            ),
            DadosQr::Pix(d) => DadosQr::Pix(
                DadosPix { nome: d.nome.clone(), chave_pix: d.chave_pix.clone() },
            ),
        }
    }
}

/// A strftime pattern for the clock reading.
#[derive(PartialEq, Eq, Structural, Clone, Copy)]
pub enum Formato {
    /// Day-month-year, as "%d-%m-%Y".
    DiaMesAno,
    /// Hour:minute:second, as "%H:%M:%S".
    HoraMinutoSegundo,
}

pub open spec fn padrao_de(f: Formato) -> Seq<char> {
    match f {
        Formato::DiaMesAno => "%d-%m-%Y"@,
        Formato::HoraMinutoSegundo => "%H:%M:%S"@,
    }
}

impl Formato {
    /// The strftime pattern.
    pub fn padrao(&self) -> (r: String)
        ensures
            r@ == padrao_de(*self),
    {
        match self {
            Formato::DiaMesAno => String::from_str("%d-%m-%Y"),
            Formato::HoraMinutoSegundo => String::from_str("%H:%M:%S"),
        }
    }
}

/// Error-correction level of a QR code (low, medium, quartile, high).
#[derive(PartialEq, Eq, Structural, Clone, Copy)]
pub enum NivelCorrecao {
    Baixo,
    Medio,
    Quartil,
    Alto,
}

/// Side, in pixels, of the QR code images.
pub const TAMANHO_QR: usize = 1024;

/// A completed deposit: its message, the account credited, and the date
/// and time.
pub struct ConfirmacaoDeposito {
    pub mensagem: Mensagem,
    pub conta: String,
    pub data: String,
    pub hora: String,
}

/// The body of an answer.
pub enum Corpo {
    /// No body.
    Vazio,
    /// A message as plain text.
    Texto(Mensagem),
    /// A message as a JSON string.
    JsonMensagem(Mensagem),
    /// A text as a JSON string.
    JsonTexto(String),
    /// A completed transfer, as JSON (see `ConclusaoTransferencia::resposta`).
    Transferencia(ConclusaoTransferencia),
    /// A completed deposit, as JSON, together with the amount deposited.
    Deposito(ConfirmacaoDeposito),
    /// TED/DOC data as JSON.
    Ted(DadosTed),
    /// PIX data as JSON.
    Pix(DadosPix),
    /// The results of a listing of all customers; the body is the JSON list
    /// of those that were read without error (see `clientes_validos`).
    Clientes(Vec<Option<Cliente>>),
}

/// An HTTP answer: status code and body.
pub struct RespostaHttp {
    pub status: u16,
    pub corpo: Corpo,
}

/// A request to the service.
pub enum Pedido {
    /// `GET /hello`.
    Saudacao,
    /// `POST /registrar`: store a new customer.
    Cadastro(Cliente),
    /// `GET /clientes`: list all customers.
    Listagem,
    /// `POST /transferencia/conta`.
    TransfConta(TransfConta),
    /// `POST /transferencia/pix`.
    TransfPix(TransfPix),
    /// `POST /deposito`: a customer pays into the given account; the amount
    /// is a number that the program around keeps.
    Deposito(String),
    /// `GET /exibir/ted/:cpf`, `GET /exibir/pix/:cpf`, and the QR code variants.
    Exibicao(Consulta, String),
}

/// Where the handling of a request stands: what it waits for.
pub enum Etapa {
    /// The answer was given; nothing is left to do.
    Encerrada,
    /// Waiting for the customer to be stored.
    Inserindo(Cliente),
    /// Waiting for the listing of all customers.
    Listando,
    /// Waiting for the lookup of the sender.
    BuscandoRemetente(PedidoTransferencia),
    /// Sender found; waiting for the lookup of the recipient.
    BuscandoDestinatario(PedidoTransferencia, Cliente),
    /// Both found (sender, recipient); waiting for the evaluation of the balances.
    AvaliandoTransferencia(PedidoTransferencia, Cliente, Cliente),
    /// Waiting for the sender's new balance to be stored (the transfer, the
    /// sender and recipient found, the evaluation).
    GravandoRemetente(PedidoTransferencia, Cliente, Cliente, Avaliacao),
    /// Waiting for the recipient's new balance to be stored.
    GravandoDestinatario(PedidoTransferencia, Cliente, Cliente, Avaliacao),
    /// Waiting for the date and time of a completed transfer.
    DatandoTransferencia(PedidoTransferencia),
    /// Waiting for the sign of the deposit amount for the given account.
    AvaliandoDeposito(String),
    /// Waiting for the lookup of the depositor's account.
    BuscandoDepositante(String),
    /// Waiting for the account of the customer found to be credited.
    Creditando(Cliente),
    /// Waiting for the date and time of a completed deposit.
    DatandoDeposito(String),
    /// Waiting for the lookup of a customer by CPF.
    BuscandoTitular(Consulta, String),
    /// Waiting for the JSON text of the data.
    Serializando(DadosQr),
    /// Waiting for the QR code of the JSON text to be written.
    GerandoQr(String, ArquivoQr),
}

/// Work that the program around does for the handling of a request.
pub enum Acao {
    /// Nothing: the request has been answered.
    Nenhuma,
    /// Send this answer; the handling ends.
    Responder(RespostaHttp),
    /// Store the customer; answer with `Inserido`.
    Inserir(Cliente),
    /// Read every customer; answer with `Lista`.
    BuscarTodos,
    /// Read the first customer that matches; answer with `Encontrado`.
    Buscar(Filtro),
    /// Parse the two balances and the amount as numbers and compare them;
    /// answer with `TransferenciaAvaliada`.
    AvaliarTransferencia { saldo_remetente: String, saldo_destinatario: String, quantia: String },
    /// Tell whether the deposit amount is below zero; answer with `DepositoAvaliado`.
    AvaliarDeposito,
    /// Set the balance of the customer that matches to this text; answer with `Gravado`.
    GravarSaldo { filtro: Filtro, saldo: String },
    /// Add the deposit amount, as a number, to the balance of the customer
    /// that matches, in one update of the stored record; answer with `Gravado`.
    CreditarDeposito(Filtro),
    /// Read the local clock and write the date and the time with these
    /// patterns; answer with `Relogio`.
    ConsultarRelogio { data: Formato, hora: Formato },
    /// Write the data as a JSON text; answer with `Serializado`.
    Serializar(DadosQr),
    /// Write the text as a PNG QR code image of `tamanho` pixels, with
    /// error correction `correcao`, into the file; answer with `QrGerado`.
    GerarQr { conteudo: String, arquivo: ArquivoQr, tamanho: usize, correcao: NivelCorrecao },
}

/// What the program around reports back once it has done an `Acao`.
pub enum Evento {
    Inserido,
    Lista(Vec<Option<Cliente>>),
    Encontrado(Option<Cliente>),
    TransferenciaAvaliada(Avaliacao),
    DepositoAvaliado { quantia_negativa: bool },
    Gravado,
    Relogio { data: String, hora: String },
    Serializado(String),
    QrGerado,
}

pub open spec fn campo_de(m: Modo) -> Campo {
    match m {
        Modo::Conta => Campo::Conta,
        Modo::Pix => Campo::Pix,
    }
}

pub open spec fn filtro_remetente(q: PedidoTransferencia) -> Filtro {
    Filtro { campo: campo_de(q.modo), valor: q.remetente }
}

pub open spec fn filtro_destinatario(q: PedidoTransferencia) -> Filtro {
    Filtro { campo: campo_de(q.modo), valor: q.destinatario }
}

/// The answer when the sender is not found.
pub open spec fn remetente_ausente(q: PedidoTransferencia) -> Mensagem {
    match q.modo {
        Modo::Conta => Mensagem::RemetenteContaAusente(q.remetente),
        Modo::Pix => Mensagem::RemetentePixAusente,
    }
}

/// The answer when the recipient is not found.
pub open spec fn destinatario_ausente(q: PedidoTransferencia) -> Mensagem {
    match q.modo {
        Modo::Conta => Mensagem::DestinatarioContaAusente(q.destinatario),
        Modo::Pix => Mensagem::DestinatarioPixAusente,
    }
}

/// Reading the clock for an answer: date as day-month-year, time as
/// hour:minute:second.
pub open spec fn consultar_relogio() -> Acao {
    Acao::ConsultarRelogio { data: Formato::DiaMesAno, hora: Formato::HoraMinutoSegundo }
}

/// Writing a QR code: 1024 pixels, low error correction.
pub open spec fn gerar_qr(conteudo: String, arquivo: ArquivoQr) -> Acao {
    Acao::GerarQr { conteudo, arquivo, tamanho: TAMANHO_QR, correcao: NivelCorrecao::Baixo }
}

pub open spec fn responder(status: u16, corpo: Corpo) -> Acao {
    Acao::Responder(RespostaHttp { status, corpo })
}

/// The work that a stage waits on.
pub open spec fn pendente(e: Etapa) -> Acao {
    match e {
        Etapa::Encerrada => Acao::Nenhuma,
        Etapa::Inserindo(c) => Acao::Inserir(c),
        Etapa::Listando => Acao::BuscarTodos,
        Etapa::BuscandoRemetente(q) => Acao::Buscar(filtro_remetente(q)),
        Etapa::BuscandoDestinatario(q, _) => Acao::Buscar(filtro_destinatario(q)),
        Etapa::AvaliandoTransferencia(q, r, d) => Acao::AvaliarTransferencia {
            saldo_remetente: r.saldo,
            saldo_destinatario: d.saldo,
            quantia: q.quantia,
        },
        Etapa::GravandoRemetente(q, _, _, a) => Acao::GravarSaldo {
            filtro: filtro_remetente(q),
            saldo: a.saldo_remetente,
        },
        Etapa::GravandoDestinatario(q, _, _, a) => Acao::GravarSaldo {
            filtro: filtro_destinatario(q),
            saldo: a.saldo_destinatario,
        },
        Etapa::DatandoTransferencia(_) => consultar_relogio(),
        Etapa::AvaliandoDeposito(_) => Acao::AvaliarDeposito,
        Etapa::BuscandoDepositante(conta) => Acao::Buscar(
            Filtro { campo: Campo::Conta, valor: conta },
        ),
        Etapa::Creditando(c) => Acao::CreditarDeposito(
            Filtro { campo: Campo::Conta, valor: c.conta },
        ),
        Etapa::DatandoDeposito(_) => consultar_relogio(),
        Etapa::BuscandoTitular(_, cpf) => Acao::Buscar(Filtro { campo: Campo::Cpf, valor: cpf }),
        Etapa::Serializando(d) => Acao::Serializar(d),
        Etapa::GerandoQr(s, a) => gerar_qr(s, a),
    }
}

/// Move on to a stage and ask for its work.
pub open spec fn seguir(e: Etapa) -> (Etapa, Acao) {
    (e, pendente(e))
}

/// Answer and end.
pub open spec fn encerrar(status: u16, corpo: Corpo) -> (Etapa, Acao) {
    (Etapa::Encerrada, responder(status, corpo))
}

/// Whether a request is a transfer of either kind.
pub open spec fn eh_transferencia(p: Pedido) -> bool {
    p is TransfConta || p is TransfPix
}

/// The transfer that a transfer request asks for.
pub open spec fn transferencia_de(p: Pedido) -> PedidoTransferencia
    recommends
        eh_transferencia(p),
{
    match p {
        Pedido::TransfConta(t) => pedido_de_conta(t),
        Pedido::TransfPix(t) => pedido_de_pix(t),
        _ => arbitrary(),
    }
}

/// The stage reached, and the work asked for after each report, when the
/// reports `evs` come in one after the other from stage `e`.
pub open spec fn percurso(e: Etapa, evs: Seq<Evento>) -> (Etapa, Seq<Acao>)
    decreases evs.len(),
{
    if evs.len() == 0 {
        (e, Seq::empty())
    } else {
        let (e1, a1) = passo(e, evs[0]);
        let resto = percurso(e1, evs.drop_first());
        (resto.0, seq![a1] + resto.1)
    }
}

/// The handling of a request from its start: the stage reached and all the
/// work asked for, the first before any report and then one after each
/// report of `evs`.
pub open spec fn atendimento(p: Pedido, evs: Seq<Evento>) -> (Etapa, Seq<Acao>) {
    let (e0, a0) = inicio(p);
    let r = percurso(e0, evs);
    (r.0, seq![a0] + r.1)
}

/// The first stage of a request and its work.
pub open spec fn inicio(p: Pedido) -> (Etapa, Acao) {
    match p {
        Pedido::Saudacao => encerrar(200, Corpo::Texto(Mensagem::Saudacao)),
        Pedido::Cadastro(c) => seguir(Etapa::Inserindo(c)),
        Pedido::Listagem => seguir(Etapa::Listando),
        Pedido::TransfConta(t) => seguir(Etapa::BuscandoRemetente(pedido_de_conta(t))),
        Pedido::TransfPix(t) => seguir(Etapa::BuscandoRemetente(pedido_de_pix(t))),
        Pedido::Deposito(conta) => seguir(Etapa::AvaliandoDeposito(conta)),
        Pedido::Exibicao(k, cpf) => seguir(Etapa::BuscandoTitular(k, cpf)),
    }
}

/// The answer to a lookup by CPF, by the kind of lookup.
pub open spec fn apos_titular(k: Consulta, achado: Option<Cliente>) -> (Etapa, Acao) {
    match achado {
        None => match k {
            Consulta::Pix => encerrar(404, Corpo::Texto(Mensagem::PixNaoEncontrado)),
            _ => encerrar(200, Corpo::JsonMensagem(Mensagem::ContaNaoEncontrada)),
        },
        Some(c) => match k {
            Consulta::Ted => encerrar(200, Corpo::Ted(dados_ted_de(c))),
            Consulta::Pix => encerrar(200, Corpo::Pix(dados_pix_de(c))),
            Consulta::TedQr => seguir(Etapa::Serializando(DadosQr::Ted(dados_ted_de(c)))),
            Consulta::PixQr => seguir(Etapa::Serializando(DadosQr::Pix(dados_pix_de(c)))),
        },
    }
}

/// Whether a transfer names the same party as sender and recipient: the
/// same account, or the same PIX key. Equal keys find the same customer;
/// different keys find different customers.
pub open spec fn para_si(q: PedidoTransferencia) -> bool {
    q.remetente@ == q.destinatario@
}

/// The verdict on the evaluated balances of a transfer: the balance is
/// checked before the sign of the amount. A transfer that goes ahead
/// debits the sender, then credits the recipient; from a party to itself
/// the two cancel out, so no balance is written.
pub open spec fn apos_avaliacao(
    q: PedidoTransferencia,
    remetente: Cliente,
    destinatario: Cliente,
    a: Avaliacao,
) -> (Etapa, Acao) {
    if a.saldo_insuficiente {
        encerrar(406, Corpo::Texto(Mensagem::SaldoInsuficiente))
    } else if a.quantia_negativa {
        encerrar(406, Corpo::Texto(Mensagem::TransferenciaNegativa))
    } else if para_si(q) {
        seguir(Etapa::DatandoTransferencia(q))
    } else {
        seguir(Etapa::GravandoRemetente(q, remetente, destinatario, a))
    }
}

/// Whether an event answers the work that a stage waits on.
pub open spec fn esperado(e: Etapa, ev: Evento) -> bool {
    match e {
        Etapa::Encerrada => false,
        Etapa::Inserindo(_) => ev is Inserido,
        Etapa::Listando => ev is Lista,
        Etapa::BuscandoRemetente(_) => ev is Encontrado,
        Etapa::BuscandoDestinatario(_, _) => ev is Encontrado,
        Etapa::AvaliandoTransferencia(_, _, _) => ev is TransferenciaAvaliada,
        Etapa::GravandoRemetente(_, _, _, _) => ev is Gravado,
        Etapa::GravandoDestinatario(_, _, _, _) => ev is Gravado,
        Etapa::DatandoTransferencia(_) => ev is Relogio,
        Etapa::AvaliandoDeposito(_) => ev is DepositoAvaliado,
        Etapa::BuscandoDepositante(_) => ev is Encontrado,
        Etapa::Creditando(_) => ev is Gravado,
        Etapa::DatandoDeposito(_) => ev is Relogio,
        Etapa::BuscandoTitular(_, _) => ev is Encontrado,
        Etapa::Serializando(_) => ev is Serializado,
        Etapa::GerandoQr(_, _) => ev is QrGerado,
    }
}

/// The next stage and its work, once an event comes in. An event that does
/// not answer the pending work changes nothing, and the work is asked again.
pub open spec fn passo(e: Etapa, ev: Evento) -> (Etapa, Acao) {
    if !esperado(e, ev) {
        (e, pendente(e))
    } else {
        match e {
            Etapa::Inserindo(_) => encerrar(201, Corpo::Vazio),
            Etapa::Listando => encerrar(200, Corpo::Clientes(ev->Lista_0)),
            Etapa::BuscandoRemetente(q) => match ev->Encontrado_0 {
                None => encerrar(404, Corpo::Texto(remetente_ausente(q))),
                Some(r) => seguir(Etapa::BuscandoDestinatario(q, r)),
            },
            Etapa::BuscandoDestinatario(q, r) => match ev->Encontrado_0 {
                None => encerrar(404, Corpo::Texto(destinatario_ausente(q))),
                Some(d) => seguir(Etapa::AvaliandoTransferencia(q, r, d)),
            },
            Etapa::AvaliandoTransferencia(q, r, d) => apos_avaliacao(
                q,
                r,
                d,
                ev->TransferenciaAvaliada_0,
            ),
            Etapa::GravandoRemetente(q, r, d, a) => seguir(Etapa::GravandoDestinatario(q, r, d, a)),
            Etapa::GravandoDestinatario(q, _, _, _) => seguir(Etapa::DatandoTransferencia(q)),
            Etapa::DatandoTransferencia(q) => encerrar(
                200,
                Corpo::Transferencia(
                    ConclusaoTransferencia {
                        modo: q.modo,
                        remetente: q.remetente,
                        destinatario: q.destinatario,
                        quantia: q.quantia,
                        data: ev->Relogio_data,
                        hora: ev->Relogio_hora,
                    },
                ),
            ),
            Etapa::AvaliandoDeposito(conta) => if ev->quantia_negativa {
                encerrar(406, Corpo::Texto(Mensagem::DepositoNegativo))
            } else {
                seguir(Etapa::BuscandoDepositante(conta))
            },
            Etapa::BuscandoDepositante(_) => match ev->Encontrado_0 {
                None => encerrar(404, Corpo::Texto(Mensagem::DepositanteAusente)),
                Some(c) => seguir(Etapa::Creditando(c)),
            },
            Etapa::Creditando(c) => seguir(Etapa::DatandoDeposito(c.conta)),
            Etapa::DatandoDeposito(conta) => encerrar(
                200,
                Corpo::Deposito(
                    ConfirmacaoDeposito {
                        mensagem: Mensagem::DepositoRealizado,
                        conta,
                        data: ev->Relogio_data,
                        hora: ev->Relogio_hora,
                    },
                ),
            ),
            Etapa::BuscandoTitular(k, _) => apos_titular(k, ev->Encontrado_0),
            Etapa::Serializando(d) => seguir(Etapa::GerandoQr(ev->Serializado_0, arquivo_de(d))),
            Etapa::GerandoQr(s, _) => encerrar(200, Corpo::JsonTexto(s)),
            Etapa::Encerrada => (e, pendente(e)),
        }
    }
}

fn campo_exec(m: Modo) -> (r: Campo)
    ensures
        r == campo_de(m),
{
    match m {
        Modo::Conta => Campo::Conta,
        Modo::Pix => Campo::Pix,
    }
}

/// The work that a stage waits on.
pub fn acao_pendente(e: &Etapa) -> (r: Acao)
    ensures
        r == pendente(*e),
{
    match e {
        Etapa::Encerrada => Acao::Nenhuma,
        Etapa::Inserindo(c) => Acao::Inserir(c.clonar()),
        Etapa::Listando => Acao::BuscarTodos,
        Etapa::BuscandoRemetente(q) => Acao::Buscar(
            Filtro { campo: campo_exec(q.modo), valor: q.remetente.clone() },
        ),
        Etapa::BuscandoDestinatario(q, _) => Acao::Buscar(
            Filtro { campo: campo_exec(q.modo), valor: q.destinatario.clone() },
        ),
        Etapa::AvaliandoTransferencia(q, r, d) => Acao::AvaliarTransferencia {
            saldo_remetente: r.saldo.clone(),
            saldo_destinatario: d.saldo.clone(),
            quantia: q.quantia.clone(),
        },
        Etapa::GravandoRemetente(q, _, _, a) => Acao::GravarSaldo {
            filtro: Filtro { campo: campo_exec(q.modo), valor: q.remetente.clone() },
            saldo: a.saldo_remetente.clone(),
        },
        Etapa::GravandoDestinatario(q, _, _, a) => Acao::GravarSaldo {
            filtro: Filtro { campo: campo_exec(q.modo), valor: q.destinatario.clone() },
            saldo: a.saldo_destinatario.clone(),
        },
        Etapa::DatandoTransferencia(_) => Acao::ConsultarRelogio {
            data: Formato::DiaMesAno,
            hora: Formato::HoraMinutoSegundo,
        },
        Etapa::AvaliandoDeposito(_) => Acao::AvaliarDeposito,
        Etapa::BuscandoDepositante(conta) => Acao::Buscar(
            Filtro { campo: Campo::Conta, valor: conta.clone() },
        ),
        Etapa::Creditando(c) => Acao::CreditarDeposito(
            Filtro { campo: Campo::Conta, valor: c.conta.clone() },
        ),
        Etapa::DatandoDeposito(_) => Acao::ConsultarRelogio {
            data: Formato::DiaMesAno,
            hora: Formato::HoraMinutoSegundo,
        },
        Etapa::BuscandoTitular(_, cpf) => Acao::Buscar(
            Filtro { campo: Campo::Cpf, valor: cpf.clone() },
        ),
        Etapa::Serializando(d) => Acao::Serializar(d.clonar()),
        Etapa::GerandoQr(s, a) => Acao::GerarQr {
            conteudo: s.clone(),
            arquivo: *a,
            tamanho: TAMANHO_QR,
            correcao: NivelCorrecao::Baixo,
        },
    }
}

fn seguir_exec(e: Etapa) -> (r: (Etapa, Acao))
    ensures
        r == seguir(e),
{
    let a = acao_pendente(&e);
    (e, a)
}

fn encerrar_exec(status: u16, corpo: Corpo) -> (r: (Etapa, Acao))
    ensures
        r == encerrar(status, corpo),
{
    (Etapa::Encerrada, Acao::Responder(RespostaHttp { status, corpo }))
}

/// Starts the handling of a request: its first stage and the work it asks for.
pub fn iniciar(p: Pedido) -> (r: (Etapa, Acao))
    ensures
        r == inicio(p),
{
    match p {
        Pedido::Saudacao => encerrar_exec(200, Corpo::Texto(Mensagem::Saudacao)),
        Pedido::Cadastro(c) => seguir_exec(Etapa::Inserindo(c)),
        Pedido::Listagem => seguir_exec(Etapa::Listando),
        Pedido::TransfConta(t) => seguir_exec(
            Etapa::BuscandoRemetente(PedidoTransferencia::de_conta(t)),
        ),
        Pedido::TransfPix(t) => seguir_exec(
            Etapa::BuscandoRemetente(PedidoTransferencia::de_pix(t)),
        ),
        Pedido::Deposito(conta) => seguir_exec(Etapa::AvaliandoDeposito(conta)),
        Pedido::Exibicao(k, cpf) => seguir_exec(Etapa::BuscandoTitular(k, cpf)),
    }
}

/// Whether an event answers the work that a stage waits on.
pub fn espera(e: &Etapa, ev: &Evento) -> (r: bool)
    ensures
        r == esperado(*e, *ev),
{
    match e {
        Etapa::Encerrada => false,
        Etapa::Inserindo(_) => matches!(ev, Evento::Inserido),
        Etapa::Listando => matches!(ev, Evento::Lista(_)),
        Etapa::BuscandoRemetente(_) => matches!(ev, Evento::Encontrado(_)),
        Etapa::BuscandoDestinatario(_, _) => matches!(ev, Evento::Encontrado(_)),
        Etapa::AvaliandoTransferencia(_, _, _) => matches!(ev, Evento::TransferenciaAvaliada(_)),
        Etapa::GravandoRemetente(_, _, _, _) => matches!(ev, Evento::Gravado),
        Etapa::GravandoDestinatario(_, _, _, _) => matches!(ev, Evento::Gravado),
        Etapa::DatandoTransferencia(_) => matches!(ev, Evento::Relogio { .. }),
        Etapa::AvaliandoDeposito(_) => matches!(ev, Evento::DepositoAvaliado { .. }),
        Etapa::BuscandoDepositante(_) => matches!(ev, Evento::Encontrado(_)),
        Etapa::Creditando(_) => matches!(ev, Evento::Gravado),
        Etapa::DatandoDeposito(_) => matches!(ev, Evento::Relogio { .. }),
        Etapa::BuscandoTitular(_, _) => matches!(ev, Evento::Encontrado(_)),
        Etapa::Serializando(_) => matches!(ev, Evento::Serializado(_)),
        Etapa::GerandoQr(_, _) => matches!(ev, Evento::QrGerado),
    }
}

/// Takes in the report of the work done and moves the handling on: the
/// next stage and the work it asks for. A report that does not answer the
/// pending work changes nothing.
pub fn avancar(e: Etapa, ev: Evento) -> (r: (Etapa, Acao))
    ensures
        r == passo(e, ev),
{
    if !espera(&e, &ev) {
        let a = acao_pendente(&e);
        return (e, a);
    }
    match (e, ev) {
        (Etapa::Inserindo(_), _) => encerrar_exec(201, Corpo::Vazio),
        (Etapa::Listando, Evento::Lista(v)) => encerrar_exec(200, Corpo::Clientes(v)),
        (Etapa::BuscandoRemetente(q), Evento::Encontrado(achado)) => match achado {
            None => {
                let m = match q.modo {
                    Modo::Conta => Mensagem::RemetenteContaAusente(q.remetente),
                    Modo::Pix => Mensagem::RemetentePixAusente,
                };
                encerrar_exec(404, Corpo::Texto(m))
            },
            Some(r) => seguir_exec(Etapa::BuscandoDestinatario(q, r)),
        },
        (Etapa::BuscandoDestinatario(q, r), Evento::Encontrado(achado)) => match achado {
            None => {
                let m = match q.modo {
                    Modo::Conta => Mensagem::DestinatarioContaAusente(q.destinatario),
                    Modo::Pix => Mensagem::DestinatarioPixAusente,
                };
                encerrar_exec(404, Corpo::Texto(m))
            },
            Some(d) => seguir_exec(Etapa::AvaliandoTransferencia(q, r, d)),
        },
        (Etapa::AvaliandoTransferencia(q, r, d), Evento::TransferenciaAvaliada(a)) => {
            if a.saldo_insuficiente {
                encerrar_exec(406, Corpo::Texto(Mensagem::SaldoInsuficiente))
            } else if a.quantia_negativa {
                encerrar_exec(406, Corpo::Texto(Mensagem::TransferenciaNegativa))
            } else if q.remetente == q.destinatario {
                seguir_exec(Etapa::DatandoTransferencia(q))
            } else {
                seguir_exec(Etapa::GravandoRemetente(q, r, d, a))
            }
        },
        (Etapa::GravandoRemetente(q, r, d, a), _) => seguir_exec(
            Etapa::GravandoDestinatario(q, r, d, a),
        ),
        (Etapa::GravandoDestinatario(q, _, _, _), _) => seguir_exec(Etapa::DatandoTransferencia(q)),
        (Etapa::DatandoTransferencia(q), Evento::Relogio { data, hora }) => encerrar_exec(
            200,
            Corpo::Transferencia(
                ConclusaoTransferencia {
                    modo: q.modo,
                    remetente: q.remetente,
                    destinatario: q.destinatario,
                    quantia: q.quantia,
                    data,
                    hora,
                },
            ),
        ),
        (Etapa::AvaliandoDeposito(conta), Evento::DepositoAvaliado { quantia_negativa }) => {
            if quantia_negativa {
                encerrar_exec(406, Corpo::Texto(Mensagem::DepositoNegativo))
            } else {
                seguir_exec(Etapa::BuscandoDepositante(conta))
            }
        },
        (Etapa::BuscandoDepositante(_), Evento::Encontrado(achado)) => match achado {
            None => encerrar_exec(404, Corpo::Texto(Mensagem::DepositanteAusente)),
            Some(c) => seguir_exec(Etapa::Creditando(c)),
        },
        (Etapa::Creditando(c), _) => seguir_exec(Etapa::DatandoDeposito(c.conta)),
        (Etapa::DatandoDeposito(conta), Evento::Relogio { data, hora }) => encerrar_exec(
            200,
            Corpo::Deposito(
                ConfirmacaoDeposito { mensagem: Mensagem::DepositoRealizado, conta, data, hora },
            ),
        ),
        (Etapa::BuscandoTitular(k, _), Evento::Encontrado(achado)) => match achado {
            None => match k {
                Consulta::Pix => encerrar_exec(404, Corpo::Texto(Mensagem::PixNaoEncontrado)),
                _ => encerrar_exec(200, Corpo::JsonMensagem(Mensagem::ContaNaoEncontrada)),
            },
            Some(c) => match k {
                Consulta::Ted => encerrar_exec(200, Corpo::Ted(DadosTed::de_cliente(c))),
                Consulta::Pix => encerrar_exec(200, Corpo::Pix(DadosPix::de_cliente(c))),
                Consulta::TedQr => seguir_exec(
                    Etapa::Serializando(DadosQr::Ted(DadosTed::de_cliente(c))),
                ),
                Consulta::PixQr => seguir_exec(
                    Etapa::Serializando(DadosQr::Pix(DadosPix::de_cliente(c))),
                ),
            },
        },
        (Etapa::Serializando(d), Evento::Serializado(s)) => {
            let arquivo = match d {
                DadosQr::Ted(_) => ArquivoQr::Ted,
                DadosQr::Pix(_) => ArquivoQr::Pix,
            };
            seguir_exec(Etapa::GerandoQr(s, arquivo))
        },
        (Etapa::GerandoQr(s, _), _) => encerrar_exec(200, Corpo::JsonTexto(s)),
        (e, _) => {
            let a = acao_pendente(&e);
            (e, a)
        },
    }
}

} // verus!
