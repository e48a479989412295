use vstd::prelude::*;

verus! {

/// The fixed texts that the service answers with.
pub enum Mensagem {
    /// The sender's account (carried) was not found.
    RemetenteContaAusente(String),
    /// The recipient's account (carried) was not found.
    DestinatarioContaAusente(String),
    RemetentePixAusente,
    DestinatarioPixAusente,
    SaldoInsuficiente,
    TransferenciaNegativa,
    TransferenciaContaConcluida,
    TransferenciaPixConcluida,
    DepositoNegativo,
    DepositanteAusente,
    DepositoRealizado,
    ContaNaoEncontrada,
    PixNaoEncontrado,
    Saudacao,
}

/// The characters of each message.
pub open spec fn texto_de(m: Mensagem) -> Seq<char> {
    match m {
        Mensagem::RemetenteContaAusente(conta) =>
            "Conta do remetente "@ + conta@ + " não encontrada!"@,
        Mensagem::DestinatarioContaAusente(conta) =>
            "Conta do destinatário "@ + conta@ + " não encontrada!"@,
        Mensagem::RemetentePixAusente => "Pix do remetente não encontrado!"@,
        Mensagem::DestinatarioPixAusente => "Pix do destinatário não encontrado!"@,
        Mensagem::SaldoInsuficiente => "O saldo da conta é insuficiente"@,
        Mensagem::TransferenciaNegativa =>
            "A requisição de transferência não pode ter uma quantia negativa!"@,
        Mensagem::TransferenciaContaConcluida => "Transferência via conta concluída"@,
        Mensagem::TransferenciaPixConcluida => "Transferência via pix concluída"@,
        Mensagem::DepositoNegativo =>
            "A requisição de depósito não pode ter uma quantia negativa!"@,
        Mensagem::DepositanteAusente => "Conta do depositante não encontrada!"@,
        Mensagem::DepositoRealizado => "Depósito realizado com sucesso"@,
        Mensagem::ContaNaoEncontrada => "Não foi encontrada conta referente ao pedido!"@,
        Mensagem::PixNaoEncontrado => "Nenhuma chave pix foi encontrada"@,
        Mensagem::Saudacao => "Hello, world!"@,
    }
}

impl Mensagem {
    /// The text of the message.
    pub fn texto(&self) -> (r: String)
        ensures
            r@ == texto_de(*self),
    {
        match self {
            Mensagem::RemetenteContaAusente(conta) => {
                let mut s = String::from_str("Conta do remetente ");
                s.append(conta.as_str());
                s.append(" não encontrada!");
                s
            },
            Mensagem::DestinatarioContaAusente(conta) => {
                let mut s = String::from_str("Conta do destinatário ");
                s.append(conta.as_str());
                s.append(" não encontrada!");
                s
            },
            Mensagem::RemetentePixAusente => String::from_str("Pix do remetente não encontrado!"),
            Mensagem::DestinatarioPixAusente => String::from_str(
                "Pix do destinatário não encontrado!",
            ),
            Mensagem::SaldoInsuficiente => String::from_str("O saldo da conta é insuficiente"),
            Mensagem::TransferenciaNegativa => String::from_str(
                "A requisição de transferência não pode ter uma quantia negativa!",
            ),
            Mensagem::TransferenciaContaConcluida => String::from_str(
                "Transferência via conta concluída",
            ),
            Mensagem::TransferenciaPixConcluida => String::from_str(
                "Transferência via pix concluída",
            ),
            Mensagem::DepositoNegativo => String::from_str(
                "A requisição de depósito não pode ter uma quantia negativa!",
            ),
            Mensagem::DepositanteAusente => String::from_str(
                "Conta do depositante não encontrada!",
            ),
            Mensagem::DepositoRealizado => String::from_str("Depósito realizado com sucesso"),
            Mensagem::ContaNaoEncontrada => String::from_str(
                "Não foi encontrada conta referente ao pedido!",
            ),
            Mensagem::PixNaoEncontrado => String::from_str("Nenhuma chave pix foi encontrada"),
            Mensagem::Saudacao => String::from_str("Hello, world!"),
        }
    }
}

} // verus!
