use vstd::prelude::*;

verus! {

/// Failures of the tiered settlement engine.
#[derive(Debug, Clone, Copy, PartialEq, Eq, Structural)]
pub enum UmbraError {
    InvalidInputAmount,
    InvalidPayloadLength,
    SolverNotActive,
    UnauthorizedSolver,
    UnauthorizedOwner,
    InvalidTokenMint,
    OrderNotExecutable,
    OrderNotCancellable,
    OrderNotClaimable,
    SlippageExceeded,
    AlreadyClaimed,
    ArithmeticOverflow,
    InvalidFairScore,
    FairScoreProofExpired,
    InvalidFairScoreSignature,
    OrderTypeNotAllowed,
    InsufficientTier,
    DerivativesNotAllowed,
    OrderSizeExceedsTierLimit,
    InvalidTierConfig,
    FeeCalculationError,
    ProtocolPaused,
    InvalidFeeVault,
    InvalidSovereignIdentity,
    OrderExceedsTierLimit,
    InsufficientBalance,
}

/// Failures of the basic (untiered) swap router.
#[derive(Debug, Clone, Copy, PartialEq, Eq, Structural)]
pub enum SwapError {
    OrderNotCancellable,
    OrderNotExecutable,
    OrderNotClaimable,
    UnauthorizedOwner,
    UnauthorizedSolver,
    InvalidPayloadLength,
    SlippageExceeded,
    OrderExpired,
    SolverNotActive,
    InvalidInputAmount,
    InvalidTokenMint,
    ArithmeticOverflow,
    AlreadyClaimed,
    InsufficientBalance,
}

/// Failures of the dark pool: dark orders, dark swaps, liquidity, launches.
#[derive(Debug, Clone, Copy, PartialEq, Eq, Structural)]
pub enum DarkFlowError {
    PoolNotActive,
    InvalidEncryptionKey,
    InvalidCommitment,
    InvalidZkProof,
    NullifierAlreadyUsed,
    OrderExpired,
    OrderNotPending,
    Unauthorized,
    InsufficientBalance,
    InvalidAmount,
    SlippageExceeded,
    PositionNotFound,
    PositionNotActive,
    LaunchNotActive,
    LaunchSoldOut,
    InvalidProofSize,
    InvalidEncryptedData,
    MathOverflow,
    InvalidTokenMint,
    DeadlineExceeded,
}

/// Failures of the asset registry.
#[derive(Debug, Clone, Copy, PartialEq, Eq, Structural)]
pub enum RwaError {
    ProtocolPaused,
    AssetNotActive,
    AssetFrozen,
    AccessExpired,
    AccessRevoked,
    AlreadyRevoked,
    InsufficientAccessLevel,
    UnauthorizedIssuer,
    UnauthorizedRevoker,
    UnauthorizedGrantor,
    DelegationNotAllowed,
    InvalidMetadataLength,
    InvalidKeyShareLength,
    InvalidEncryptionKey,
    AssetAlreadyExists,
    GrantAlreadyExists,
    InvalidGrant,
    CannotEscalateAccess,
    InvalidExpiration,
    ArithmeticOverflow,
}

} // verus!
