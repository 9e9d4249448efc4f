//! Registry of real-world assets with encrypted metadata, access grants
//! that hand out re-encrypted key shares, and an audit log of accesses.

use vstd::prelude::*;
use crate::errors::RwaError;
use crate::keys::Pubkey;

verus! {

/// Bounds on encrypted metadata, in bytes.
pub const MIN_METADATA_SIZE: usize = 64;
pub const MAX_METADATA_SIZE: usize = 1024;

/// Bounds on a re-encrypted key share, in bytes.
pub const MIN_KEY_SHARE_SIZE: usize = 48;
pub const MAX_KEY_SHARE_SIZE: usize = 256;

/// Most bytes of request metadata in an audit entry.
pub const MAX_REQUEST_METADATA: usize = 256;

#[derive(Debug, Clone, Copy)]
pub struct ProtocolConfig {
    pub admin: Pubkey,
    pub asset_count: u64,
    pub is_paused: bool,
}

#[derive(Debug, Clone, Copy, PartialEq, Eq, Structural)]
pub enum AssetType {
    RealEstate,
    Securities,
    Commodities,
    Receivables,
    IntellectualProperty,
    Equipment,
    Other,
}

#[derive(Debug, Clone, Copy, PartialEq, Eq, Structural)]
pub enum AssetStatus {
    Active,
    Inactive,
    Frozen,
    Transferred,
}

#[derive(Debug, Clone, Copy, PartialEq, Eq, Structural)]
pub enum AccessLevel {
    ViewBasic,
    ViewFull,
    Auditor,
    Admin,
}

#[derive(Debug, Clone, Copy, PartialEq, Eq, Structural)]
pub enum AccessType {
    ViewBasic,
    ViewFull,
    Audit,
    TransferRequest,
    Download,
}

/// A registered asset; its metadata is encrypted to its issuer.
#[derive(Debug, Clone)]
pub struct RwaAsset {
    /// Address of the asset record.
    pub key: Pubkey,
    pub issuer: Pubkey,
    pub asset_id: [u8; 32],
    pub asset_type: AssetType,
    pub encrypted_metadata: Vec<u8>,
    pub issuer_encryption_pubkey: [u8; 32],
    pub status: AssetStatus,
    pub created_at: i64,
    pub updated_at: i64,
    pub access_grant_count: u32,
}

impl RwaAsset {
    pub fn is_active(&self) -> (r: bool)
        ensures
            r == (self.status == AssetStatus::Active),
    {
        self.status == AssetStatus::Active
    }
}

/// A grant of access to one asset's metadata for one grantee.
#[derive(Debug, Clone)]
pub struct AccessGrant {
    pub asset: Pubkey,
    pub grantee: Pubkey,
    pub grantor: Pubkey,
    pub access_level: AccessLevel,
    /// The decryption key re-encrypted to the grantee.
    pub encrypted_key_share: Vec<u8>,
    pub granted_at: i64,
    /// Zero for a grant that never expires.
    pub expires_at: i64,
    pub can_delegate: bool,
    pub is_revoked: bool,
    pub revoked_at: i64,
}

impl AccessGrant {
    /// Whether the grant is in force at `current_time`.
    pub fn is_valid(&self, current_time: i64) -> (r: bool)
        ensures
            r == (!self.is_revoked && (self.expires_at == 0 || self.expires_at > current_time)),
    {
        !self.is_revoked && (self.expires_at == 0 || self.expires_at > current_time)
    }
}

/// One recorded access to an asset.
#[derive(Debug, Clone)]
pub struct AuditLog {
    pub asset: Pubkey,
    pub accessor: Pubkey,
    pub access_type: AccessType,
    pub timestamp: i64,
    pub request_metadata: Vec<u8>,
    /// Whether the accessor held a grant for the asset.
    pub was_granted: bool,
}

pub fn initialize_protocol(admin: Pubkey) -> (r: ProtocolConfig)
    ensures
        r.admin == admin,
        r.asset_count == 0,
        !r.is_paused,
{
    ProtocolConfig { admin, asset_count: 0, is_paused: false }
}

pub open spec fn metadata_len_ok(len: int) -> bool {
    MIN_METADATA_SIZE <= len <= MAX_METADATA_SIZE
}

/// Registers an asset for `issuer` with 64..=1024 bytes of encrypted
/// metadata, counting it in the protocol's total.
pub fn register_asset(
    config: &mut ProtocolConfig,
    issuer: &Pubkey,
    asset_key: Pubkey,
    asset_id: [u8; 32],
    asset_type: AssetType,
    encrypted_metadata: Vec<u8>,
    issuer_encryption_pubkey: [u8; 32],
    now: i64,
) -> (r: Result<RwaAsset, RwaError>)
    ensures
        !metadata_len_ok(encrypted_metadata@.len() as int) ==> r == Err::<RwaAsset, RwaError>(
            RwaError::InvalidMetadataLength,
        ),
        metadata_len_ok(encrypted_metadata@.len() as int) && old(config).asset_count == u64::MAX
            ==> r == Err::<RwaAsset, RwaError>(RwaError::ArithmeticOverflow),
        r is Err ==> *final(config) == *old(config),
        r matches Ok(asset) ==> {
            &&& metadata_len_ok(encrypted_metadata@.len() as int)
            &&& asset.key == asset_key
            &&& asset.issuer == *issuer
            &&& asset.asset_id == asset_id
            &&& asset.asset_type == asset_type
            &&& asset.encrypted_metadata@ == encrypted_metadata@
            &&& asset.issuer_encryption_pubkey == issuer_encryption_pubkey
            &&& asset.status == AssetStatus::Active
            &&& asset.created_at == now
            &&& asset.updated_at == now
            &&& asset.access_grant_count == 0
            &&& *final(config) == (ProtocolConfig {
                asset_count: (old(config).asset_count + 1) as u64,
                ..*old(config)
            })
        },
{
    if encrypted_metadata.len() < MIN_METADATA_SIZE || encrypted_metadata.len()
        > MAX_METADATA_SIZE {
        return Err(RwaError::InvalidMetadataLength);
    }
    if config.asset_count == u64::MAX {
        return Err(RwaError::ArithmeticOverflow);
    }
    config.asset_count = config.asset_count + 1;
    Ok(
        RwaAsset {
            key: asset_key,
            issuer: *issuer,
            asset_id,
            asset_type,
            encrypted_metadata,
            issuer_encryption_pubkey,
            status: AssetStatus::Active,
            created_at: now,
            updated_at: now,
            access_grant_count: 0,
        },
    )
}

/// Whether `grantor` may grant access to `asset`: only its issuer.
pub fn is_authorized_grantor(asset: &RwaAsset, grantor: &Pubkey) -> (r: bool)
    ensures
        r == (asset.issuer@ == grantor@),
{
    asset.issuer.equals(grantor)
}

/// Why a grant is refused, if it is.
pub open spec fn grant_error(asset: RwaAsset, grantor: Pubkey, key_share_len: int) -> Option<RwaError> {
    if asset.issuer@ != grantor@ {
        Some(RwaError::UnauthorizedGrantor)
    } else if !(MIN_KEY_SHARE_SIZE <= key_share_len <= MAX_KEY_SHARE_SIZE) {
        Some(RwaError::InvalidKeyShareLength)
    } else if asset.access_grant_count == u32::MAX {
        Some(RwaError::ArithmeticOverflow)
    } else {
        None
    }
}

/// Grants `grantee` access to an asset, as its issuer, handing over a
/// 48..=256-byte re-encrypted key share; the asset counts the grant.
pub fn grant_access(
    asset: &mut RwaAsset,
    grantor: &Pubkey,
    grantee: Pubkey,
    access_level: AccessLevel,
    encrypted_key_share: Vec<u8>,
    expires_at: i64,
    can_delegate: bool,
    now: i64,
) -> (r: Result<AccessGrant, RwaError>)
    ensures
        match grant_error(*old(asset), *grantor, encrypted_key_share@.len() as int) {
            Some(e) => r == Err::<AccessGrant, RwaError>(e) && *final(asset) == *old(asset),
            None => r matches Ok(grant) && grant.asset == old(asset).key && grant.grantee
                == grantee && grant.grantor == *grantor && grant.access_level == access_level
                && grant.encrypted_key_share@ == encrypted_key_share@ && grant.granted_at == now
                && grant.expires_at == expires_at && grant.can_delegate == can_delegate
                && !grant.is_revoked && grant.revoked_at == 0 && *final(asset) == (RwaAsset {
                access_grant_count: (old(asset).access_grant_count + 1) as u32,
                ..*old(asset)
            }),
        },
{
    if !is_authorized_grantor(asset, grantor) {
        return Err(RwaError::UnauthorizedGrantor);
    }
    if encrypted_key_share.len() < MIN_KEY_SHARE_SIZE || encrypted_key_share.len()
        > MAX_KEY_SHARE_SIZE {
        return Err(RwaError::InvalidKeyShareLength);
    }
    if asset.access_grant_count == u32::MAX {
        return Err(RwaError::ArithmeticOverflow);
    }
    asset.access_grant_count = asset.access_grant_count + 1;
    Ok(
        AccessGrant {
            asset: asset.key,
            grantee,
            grantor: *grantor,
            access_level,
            encrypted_key_share,
            granted_at: now,
            expires_at,
            can_delegate,
            is_revoked: false,
            revoked_at: 0,
        },
    )
}

/// Why a revocation is refused, if it is.
pub open spec fn revoke_error(asset: RwaAsset, authority: Pubkey, grant: AccessGrant) -> Option<RwaError> {
    if asset.issuer@ != authority@ {
        Some(RwaError::UnauthorizedRevoker)
    } else if grant.asset@ != asset.key@ {
        Some(RwaError::InvalidGrant)
    } else if grant.is_revoked {
        Some(RwaError::AlreadyRevoked)
    } else {
        None
    }
}

/// Revokes a grant on an asset, as the asset's issuer; a grant is revoked
/// at most once.
pub fn revoke_access(asset: &RwaAsset, authority: &Pubkey, grant: &mut AccessGrant, now: i64) -> (r: Result<(), RwaError>)
    ensures
        match revoke_error(*asset, *authority, *old(grant)) {
            Some(e) => r == Err::<(), RwaError>(e) && *final(grant) == *old(grant),
            None => r is Ok && *final(grant) == (AccessGrant {
                is_revoked: true,
                revoked_at: now,
                ..*old(grant)
            }),
        },
{
    if !asset.issuer.equals(authority) {
        return Err(RwaError::UnauthorizedRevoker);
    }
    if !grant.asset.equals(&asset.key) {
        return Err(RwaError::InvalidGrant);
    }
    if grant.is_revoked {
        return Err(RwaError::AlreadyRevoked);
    }
    grant.is_revoked = true;
    grant.revoked_at = now;
    Ok(())
}

/// Whether a presented grant belongs to this asset and accessor.
pub open spec fn grant_matches(grant: AccessGrant, asset: RwaAsset, accessor: Pubkey) -> bool {
    grant.asset@ == asset.key@ && grant.grantee@ == accessor@
}

/// Records an access to an asset; it counts as granted when the accessor
/// presents a grant of their own for the asset.
pub fn log_access(
    asset: &RwaAsset,
    accessor: &Pubkey,
    access_grant: Option<&AccessGrant>,
    access_type: AccessType,
    request_metadata: Vec<u8>,
    now: i64,
) -> (r: Result<AuditLog, RwaError>)
    ensures
        access_grant matches Some(g) && !grant_matches(*g, *asset, *accessor) ==> r == Err::<
            AuditLog,
            RwaError,
        >(RwaError::InvalidGrant),
        r is Ok <==> (!(access_grant matches Some(g) && !grant_matches(*g, *asset, *accessor))
            && request_metadata@.len() <= MAX_REQUEST_METADATA),
        r matches Ok(log) ==> {
            &&& log.asset == asset.key
            &&& log.accessor == *accessor
            &&& log.access_type == access_type
            &&& log.timestamp == now
            &&& log.request_metadata@ == request_metadata@
            &&& log.was_granted == access_grant is Some
        },
        r matches Err(e) ==> e == RwaError::InvalidGrant || e == RwaError::InvalidMetadataLength,
{
    if let Some(grant) = access_grant {
        if !grant.asset.equals(&asset.key) || !grant.grantee.equals(accessor) {
            return Err(RwaError::InvalidGrant);
        }
    }
    if request_metadata.len() > MAX_REQUEST_METADATA {
        return Err(RwaError::InvalidMetadataLength);
    }
    Ok(
        AuditLog {
            asset: asset.key,
            accessor: *accessor,
            access_type,
            timestamp: now,
            request_metadata,
            was_granted: access_grant.is_some(),
        },
    )
}

/// Replaces an asset's encrypted metadata, as its issuer.
pub fn update_metadata(asset: &mut RwaAsset, issuer: &Pubkey, new_encrypted_metadata: Vec<u8>, now: i64) -> (r: Result<(), RwaError>)
    ensures
        old(asset).issuer@ != issuer@ ==> r == Err::<(), RwaError>(RwaError::UnauthorizedIssuer),
        old(asset).issuer@ == issuer@ && !metadata_len_ok(new_encrypted_metadata@.len() as int)
            ==> r == Err::<(), RwaError>(RwaError::InvalidMetadataLength),
        r is Err ==> *final(asset) == *old(asset),
        r is Ok ==> old(asset).issuer@ == issuer@ && metadata_len_ok(
            new_encrypted_metadata@.len() as int,
        ) && final(asset).encrypted_metadata@ == new_encrypted_metadata@ && *final(asset) == (
        RwaAsset {
            encrypted_metadata: final(asset).encrypted_metadata,
            updated_at: now,
            ..*old(asset)
        }),
{
    if !asset.issuer.equals(issuer) {
        return Err(RwaError::UnauthorizedIssuer);
    }
    if new_encrypted_metadata.len() < MIN_METADATA_SIZE || new_encrypted_metadata.len()
        > MAX_METADATA_SIZE {
        return Err(RwaError::InvalidMetadataLength);
    }
    asset.encrypted_metadata = new_encrypted_metadata;
    asset.updated_at = now;
    Ok(())
}

/// Marks an asset inactive, as its issuer.
pub fn deactivate_asset(asset: &mut RwaAsset, issuer: &Pubkey, now: i64) -> (r: Result<(), RwaError>)
    ensures
        old(asset).issuer@ != issuer@ ==> r == Err::<(), RwaError>(RwaError::UnauthorizedIssuer)
            && *final(asset) == *old(asset),
        old(asset).issuer@ == issuer@ ==> r is Ok && *final(asset) == (RwaAsset {
            status: AssetStatus::Inactive,
            updated_at: now,
            ..*old(asset)
        }),
{
    if !asset.issuer.equals(issuer) {
        return Err(RwaError::UnauthorizedIssuer);
    }
    asset.status = AssetStatus::Inactive;
    asset.updated_at = now;
    Ok(())
}

} // verus!
