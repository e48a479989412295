//! Decision logic of the OxeBank transfer service: the customer record, the
//! views of it that the service hands out, and the request handling written
//! as a state machine whose outside work (database, clock, JSON, QR files,
//! floating-point balances) is done by the program around it.

pub mod cliente;
pub mod mensagem;
pub mod transf;
pub mod atendimento;
pub mod leis;
