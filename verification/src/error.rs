//! The failures that an operation can answer with.

use vstd::prelude::*;

verus! {

/// Why an operation was refused. An operation that answers with one of these
/// has changed nothing.
#[derive(Clone, Copy, Debug, PartialEq, Eq, Structural, Hash)]
pub enum ErrorCode {
    Unauthorized,
    InvalidPaymentToken,
    InvalidPaymentAmount,
    PaymentTokenNotConfigured,
    StakingNotEnabled,
    InvalidStakeAmount,
    InsufficientFunds,
    StakingPeriodNotCompleted,
    RewardsAlreadyClaimed,
    PaymentNotApproved,
    SystemPaused,
    InvalidInput,
    MathOverflow,
    StakeAmountTooLarge,
    StakeAlreadyClaimed,
    InsufficientRewardReserve,
    InvalidRewardReserve,
}

impl ErrorCode {
    /// The message shown to a user for this failure.
    pub open spec fn spec_message(&self) -> &'static str {
        match self {
            ErrorCode::Unauthorized => "Você não está autorizado a realizar esta ação",
            ErrorCode::InvalidPaymentToken => "Token de pagamento inválido",
            ErrorCode::InvalidPaymentAmount => "Valor de pagamento inválido",
            ErrorCode::PaymentTokenNotConfigured => "Token de pagamento não configurado",
            ErrorCode::StakingNotEnabled => "Staking não está habilitado",
            ErrorCode::InvalidStakeAmount => "Valor de stake inválido",
            ErrorCode::InsufficientFunds => "Fundos insuficientes",
            ErrorCode::StakingPeriodNotCompleted => "Período de staking não completado",
            ErrorCode::RewardsAlreadyClaimed => "Recompensas já foram reivindicadas",
            ErrorCode::PaymentNotApproved => "Pagamento não aprovado. Use approve_delegate primeiro",
            ErrorCode::SystemPaused => "O sistema está pausado para emergência",
            ErrorCode::InvalidInput => "Valor de entrada inválido",
            ErrorCode::MathOverflow => "Erro de overflow matemático",
            ErrorCode::StakeAmountTooLarge => "Valor de stake excede o limite máximo permitido",
            ErrorCode::StakeAlreadyClaimed => "Este stake já foi reivindicado",
            ErrorCode::InsufficientRewardReserve => "Reserva de recompensas insuficiente",
            ErrorCode::InvalidRewardReserve => "Conta de reserva de recompensas inválida",
        }
    }

    /// The message shown to a user for this failure.
    #[verifier::when_used_as_spec(spec_message)]
    pub fn message(&self) -> (r: &'static str)
        ensures
            r@ == self.spec_message()@,
    {
        match self {
            ErrorCode::Unauthorized => "Você não está autorizado a realizar esta ação",
            ErrorCode::InvalidPaymentToken => "Token de pagamento inválido",
            ErrorCode::InvalidPaymentAmount => "Valor de pagamento inválido",
            ErrorCode::PaymentTokenNotConfigured => "Token de pagamento não configurado",
            ErrorCode::StakingNotEnabled => "Staking não está habilitado",
            ErrorCode::InvalidStakeAmount => "Valor de stake inválido",
            ErrorCode::InsufficientFunds => "Fundos insuficientes",
            ErrorCode::StakingPeriodNotCompleted => "Período de staking não completado",
            ErrorCode::RewardsAlreadyClaimed => "Recompensas já foram reivindicadas",
            ErrorCode::PaymentNotApproved => "Pagamento não aprovado. Use approve_delegate primeiro",
            ErrorCode::SystemPaused => "O sistema está pausado para emergência",
            ErrorCode::InvalidInput => "Valor de entrada inválido",
            ErrorCode::MathOverflow => "Erro de overflow matemático",
            ErrorCode::StakeAmountTooLarge => "Valor de stake excede o limite máximo permitido",
            ErrorCode::StakeAlreadyClaimed => "Este stake já foi reivindicado",
            ErrorCode::InsufficientRewardReserve => "Reserva de recompensas insuficiente",
            ErrorCode::InvalidRewardReserve => "Conta de reserva de recompensas inválida",
        }
    }
}

} // verus!
