use oxebank::atendimento::{ArquivoQr, Campo};
use oxebank::cliente::{clientes_validos, Cliente, DadosPix, DadosTed};
use oxebank::mensagem::Mensagem;
use oxebank::transf::{ConclusaoTransferencia, Modo, PedidoTransferencia, TransfConta, TransfPix};

fn cliente(nome: &str, conta: &str) -> Cliente {
    Cliente {
        nome: nome.to_string(),
        num: "1".to_string(),
        cpf: format!("cpf-{}", nome),
        conta: conta.to_string(),
        saldo: "100".to_string(),
        pix: format!("pix-{}", nome),
    }
}

#[test]
fn textos_das_mensagens() {
    assert_eq!(
        Mensagem::RemetenteContaAusente("123".to_string()).texto(),
        "Conta do remetente 123 não encontrada!"
    );
    assert_eq!(
        Mensagem::DestinatarioContaAusente("9-9".to_string()).texto(),
        "Conta do destinatário 9-9 não encontrada!"
    );
    assert_eq!(Mensagem::RemetentePixAusente.texto(), "Pix do remetente não encontrado!");
    assert_eq!(Mensagem::DestinatarioPixAusente.texto(), "Pix do destinatário não encontrado!");
    assert_eq!(Mensagem::SaldoInsuficiente.texto(), "O saldo da conta é insuficiente");
    assert_eq!(
        Mensagem::TransferenciaNegativa.texto(),
        "A requisição de transferência não pode ter uma quantia negativa!"
    );
    assert_eq!(
        Mensagem::TransferenciaContaConcluida.texto(),
        "Transferência via conta concluída"
    );
    assert_eq!(Mensagem::TransferenciaPixConcluida.texto(), "Transferência via pix concluída");
    assert_eq!(
        Mensagem::DepositoNegativo.texto(),
        "A requisição de depósito não pode ter uma quantia negativa!"
    );
    assert_eq!(Mensagem::DepositanteAusente.texto(), "Conta do depositante não encontrada!");
    assert_eq!(Mensagem::DepositoRealizado.texto(), "Depósito realizado com sucesso");
    assert_eq!(
        Mensagem::ContaNaoEncontrada.texto(),
        "Não foi encontrada conta referente ao pedido!"
    );
    assert_eq!(Mensagem::PixNaoEncontrado.texto(), "Nenhuma chave pix foi encontrada");
    assert_eq!(Mensagem::Saudacao.texto(), "Hello, world!");
}

#[test]
fn conta_vazia_na_mensagem() {
    assert_eq!(
        Mensagem::RemetenteContaAusente(String::new()).texto(),
        "Conta do remetente  não encontrada!"
    );
}

#[test]
fn caminhos_dos_qr() {
    assert_eq!(ArquivoQr::Ted.caminho(), "data/QRs/dados_ted.png");
    assert_eq!(ArquivoQr::Pix.caminho(), "data/QRs/dados_pix.png");
}

#[test]
fn chaves_dos_campos() {
    assert_eq!(Campo::Conta.chave(), "conta");
    assert_eq!(Campo::Pix.chave(), "pix");
    assert_eq!(Campo::Cpf.chave(), "cpf");
}

#[test]
fn dados_de_um_cliente() {
    let c = cliente("ana", "0001");
    let ted = DadosTed::de_cliente(c.clonar());
    assert_eq!(ted.nome, "ana");
    assert_eq!(ted.cpf, "cpf-ana");
    assert_eq!(ted.conta, "0001");
    let pix = DadosPix::de_cliente(c);
    assert_eq!(pix.nome, "ana");
    assert_eq!(pix.chave_pix, "pix-ana");
}

#[test]
fn somente_clientes_lidos_em_ordem() {
    let lidos = vec![
        Some(cliente("a", "1")),
        None,
        Some(cliente("b", "2")),
        None,
        None,
        Some(cliente("c", "3")),
    ];
    let v = clientes_validos(lidos);
    let nomes: Vec<&str> = v.iter().map(|c| c.nome.as_str()).collect();
    assert_eq!(nomes, vec!["a", "b", "c"]);
    assert!(clientes_validos(vec![None, None]).is_empty());
    assert!(clientes_validos(Vec::new()).is_empty());
}

#[test]
fn pedidos_de_transferencia() {
    let q = PedidoTransferencia::de_conta(TransfConta {
        conta_remetente: "1".to_string(),
        quantia: "10.5".to_string(),
        conta_destinatario: "2".to_string(),
    });
    assert!(q.modo == Modo::Conta);
    assert_eq!((q.remetente.as_str(), q.quantia.as_str(), q.destinatario.as_str()), ("1", "10.5", "2"));
    let q = PedidoTransferencia::de_pix(TransfPix {
        pix_remetente: "a@x".to_string(),
        quantia: "3".to_string(),
        pix_destinatario: "b@x".to_string(),
    });
    assert!(q.modo == Modo::Pix);
    assert_eq!((q.remetente.as_str(), q.quantia.as_str(), q.destinatario.as_str()), ("a@x", "3", "b@x"));
}

#[test]
fn resposta_de_transferencia() {
    let r = ConclusaoTransferencia {
        modo: Modo::Pix,
        remetente: "a@x".to_string(),
        destinatario: "b@x".to_string(),
        quantia: "7".to_string(),
        data: "01-02-2023".to_string(),
        hora: "10:11:12".to_string(),
    }
    .resposta();
    assert_eq!(r.mensagem, "Transferência via pix concluída");
    assert_eq!(r.remetente, "a@x");
    assert_eq!(r.destinatario, "b@x");
    assert_eq!(r.quantia, "7");
    assert_eq!(r.data, "01-02-2023");
    assert_eq!(r.hora, "10:11:12");
}
