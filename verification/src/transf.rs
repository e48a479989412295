use vstd::prelude::*;

use crate::mensagem::Mensagem;

verus! {

/// A TED/DOC transfer request: accounts of sender and recipient, and the
/// amount as the decimal text that the client sent.
pub struct TransfConta {
    pub conta_remetente: String,
    pub quantia: String,
    pub conta_destinatario: String,
}

/// A PIX transfer request: PIX keys of sender and recipient, and the amount.
pub struct TransfPix {
    pub pix_remetente: String,
    pub quantia: String,
    pub pix_destinatario: String,
}

/// The answer to a completed transfer.
pub struct Resposta {
    pub mensagem: String,
    pub remetente: String,
    pub destinatario: String,
    pub quantia: String,
    pub data: String,
    pub hora: String,
}

/// How the parties of a transfer are identified: by account or by PIX key.
#[derive(PartialEq, Eq, Structural, Clone, Copy)]
pub enum Modo {
    Conta,
    Pix,
}

/// A transfer request of either kind: `remetente` and `destinatario` are
/// accounts or PIX keys, as `modo` says.
pub struct PedidoTransferencia {
    pub modo: Modo,
    pub remetente: String,
    pub quantia: String,
    pub destinatario: String,
}

pub open spec fn pedido_de_conta(t: TransfConta) -> PedidoTransferencia {
    PedidoTransferencia {
        modo: Modo::Conta,
        remetente: t.conta_remetente,
        quantia: t.quantia,
        destinatario: t.conta_destinatario,
    }
}

pub open spec fn pedido_de_pix(t: TransfPix) -> PedidoTransferencia {
    PedidoTransferencia {
        modo: Modo::Pix,
        remetente: t.pix_remetente,
        quantia: t.quantia,
        destinatario: t.pix_destinatario,
    }
}

impl PedidoTransferencia {
    /// A TED/DOC request, with its parties identified by account.
    pub fn de_conta(t: TransfConta) -> (r: PedidoTransferencia)
        ensures
            r == pedido_de_conta(t),
            r.modo == Modo::Conta,
            r.remetente == t.conta_remetente,
            r.quantia == t.quantia,
            r.destinatario == t.conta_destinatario,
    {
        PedidoTransferencia {
            modo: Modo::Conta,
            remetente: t.conta_remetente,
            quantia: t.quantia,
            destinatario: t.conta_destinatario,
        }
    }

    /// A PIX request, with its parties identified by PIX key.
    pub fn de_pix(t: TransfPix) -> (r: PedidoTransferencia)
        ensures
            r == pedido_de_pix(t),
            r.modo == Modo::Pix,
            r.remetente == t.pix_remetente,
            r.quantia == t.quantia,
            r.destinatario == t.pix_destinatario,
    {
        PedidoTransferencia {
            modo: Modo::Pix,
            remetente: t.pix_remetente,
            quantia: t.quantia,
            destinatario: t.pix_destinatario,
        }
    }

    /// A field-by-field copy.
    pub fn clonar(&self) -> (r: PedidoTransferencia)
        ensures
            r == *self,
    {
        PedidoTransferencia {
            modo: self.modo,
            remetente: self.remetente.clone(),
            quantia: self.quantia.clone(),
            destinatario: self.destinatario.clone(),
        }
    }
}

/// What the numeric balances say of a transfer, worked out from the
/// sender's balance, the recipient's balance and the amount, each parsed
/// as a number: whether the sender's balance is below the amount, whether
/// the amount is below zero, and the text of each new balance (sender's
/// minus the amount, recipient's plus the amount).
pub struct Avaliacao {
    pub saldo_insuficiente: bool,
    pub quantia_negativa: bool,
    pub saldo_remetente: String,
    pub saldo_destinatario: String,
}

/// A transfer goes ahead when the balance covers the amount and the amount
/// is not negative.
pub open spec fn permitida(a: Avaliacao) -> bool {
    !a.saldo_insuficiente && !a.quantia_negativa
}

impl Avaliacao {
    /// A field-by-field copy.
    pub fn clonar(&self) -> (r: Avaliacao)
        ensures
            r == *self,
    {
        Avaliacao {
            saldo_insuficiente: self.saldo_insuficiente,
            quantia_negativa: self.quantia_negativa,
            saldo_remetente: self.saldo_remetente.clone(),
            saldo_destinatario: self.saldo_destinatario.clone(),
        }
    }
}

/// A completed transfer: its kind, its parties and amount as requested,
/// and the date and time at which it completed.
pub struct ConclusaoTransferencia {
    pub modo: Modo,
    pub remetente: String,
    pub destinatario: String,
    pub quantia: String,
    pub data: String,
    pub hora: String,
}

/// The message of a completed transfer of the given kind.
pub open spec fn mensagem_conclusao(modo: Modo) -> Mensagem {
    match modo {
        Modo::Conta => Mensagem::TransferenciaContaConcluida,
        Modo::Pix => Mensagem::TransferenciaPixConcluida,
    }
}

impl ConclusaoTransferencia {
    /// The answer to the transfer: its message, then the fields as they are.
    pub fn resposta(self) -> (r: Resposta)
        ensures
            r.mensagem@ == crate::mensagem::texto_de(mensagem_conclusao(self.modo)),
            r.remetente == self.remetente,
            r.destinatario == self.destinatario,
            r.quantia == self.quantia,
            r.data == self.data,
            r.hora == self.hora,
    {
        let m = match self.modo {
            Modo::Conta => Mensagem::TransferenciaContaConcluida,
            Modo::Pix => Mensagem::TransferenciaPixConcluida,
        };
        Resposta {
            mensagem: m.texto(),
            remetente: self.remetente,
            destinatario: self.destinatario,
            quantia: self.quantia,
            data: self.data,
            hora: self.hora,
        }
    }
}

} // verus!
