use vstd::prelude::*;

use crate::classify::is_public_payload;
use crate::classify::spec_is_public_payload;
use crate::digest::keccak256;
use crate::digest::keccak_of;
use crate::errors::OracleError;
use crate::hexdec::decode_hex;
use crate::hexdec::hex_decoded;
use crate::hexdec::is_valid_hex;
use crate::policy::CallContext;
use crate::policy::is_administrator;
use crate::policy::is_reporter;
use crate::policy::spec_is_administrator;
use crate::policy::spec_is_reporter;
use vstd::utf8::encode_utf8;

verus! {

/// The maturity deadline a fresh instance starts with, in nanoseconds:
/// October 31, 2024 12:00:00 PM GMT-05:00.
pub const DEFAULT_MATURITY: u64 = 1_730_394_000_000_000_000;

/// The threshold a default-constructed instance starts with: 30.00 degrees.
pub const DEFAULT_CUTOFF_TEMPERATURE: u64 = 3000;

/// The ephemeral triple handed to the external signing service: the digest
/// to sign, which key to derive, and which key generation to use.
#[derive(Debug)]
pub struct SignRequest {
    /// The 32-byte digest of the decoded transaction bytes.
    pub payload: [u8; 32],
    /// The caller-supplied derivation path naming the key.
    pub path: String,
    /// The caller-supplied key generation.
    pub key_version: u32,
}

/// The oracle state: one externally reported measurement, its release
/// threshold, the maturity deadline, and the sole account allowed to
/// report. Temperatures are fixed-point integers in hundredths of a degree
/// (2550 is 25.50 degrees).
pub struct Contract {
    /// The reported measurement, hundredths of a degree.
    pub temperature: u64,
    /// The release threshold, hundredths of a degree.
    pub cutoff_temperature: u64,
    /// The sole account permitted to report the temperature. Fixed at
    /// construction; no setter exists.
    pub weatherman: String,
    /// The absolute timestamp, in nanoseconds, at and after which the
    /// instance is matured.
    pub maturity: u64,
}

impl Contract {
    /// A fresh instance: nothing reported yet, the given reporter and
    /// threshold, and the default maturity deadline.
    pub fn new(weatherman: String, cutoff_temperature: u64) -> (c: Contract)
        ensures
            c.temperature == 0,
            c.cutoff_temperature == cutoff_temperature,
            c.weatherman@ == weatherman@,
            c.maturity == DEFAULT_MATURITY,
    {
        Contract {
            temperature: 0,
            cutoff_temperature,
            weatherman,
            maturity: DEFAULT_MATURITY,
        }
    }

    /// The reported temperature in hundredths of a degree
    /// (e.g., 2550 represents 25.50 degrees).
    pub fn get_temperature(&self) -> (t: u64)
        ensures
            t == self.temperature,
    {
        self.temperature
    }

    /// The cutoff temperature in hundredths of a degree.
    pub fn get_cutoff_temperature(&self) -> (t: u64)
        ensures
            t == self.cutoff_temperature,
    {
        self.cutoff_temperature
    }

    /// The maturity deadline, nanoseconds.
    pub fn get_maturity_date(&self) -> (t: u64)
        ensures
            t == self.maturity,
    {
        self.maturity
    }

    /// The designated reporter's account.
    pub fn get_weatherman(&self) -> (w: String)
        ensures
            w@ == self.weatherman@,
    {
        self.weatherman.clone()
    }

    /// Whether the reported temperature strictly exceeds the cutoff.
    pub fn is_above_cutoff(&self) -> (b: bool)
        ensures
            b == (self.temperature > self.cutoff_temperature),
    {
        self.temperature > self.cutoff_temperature
    }

    /// Whether the instance has matured: the current time has reached the
    /// maturity deadline. The transition is one-way because time does not
    /// run backwards; no operation can force or delay it.
    pub fn is_matured(&self, ctx: &CallContext) -> (b: bool)
        ensures
            b == (ctx.block_timestamp >= self.maturity),
    {
        ctx.block_timestamp >= self.maturity
    }

    /// Report a new temperature. Only the designated reporter may do so;
    /// on success the reported value is overwritten unconditionally (it is
    /// not checked against the threshold). Any other caller is rejected
    /// and the state is unchanged.
    pub fn set_temperature(&mut self, ctx: &CallContext, temperature: u64) -> (r: Result<
        (),
        OracleError,
    >)
        ensures
            r is Ok <==> spec_is_reporter(ctx, &old(self).weatherman),
            r is Ok ==> final(self).temperature == temperature,
            r is Err ==> r == Err::<(), OracleError>(OracleError::Unauthorized),
            r is Err ==> *final(self) == *old(self),
            final(self).cutoff_temperature == old(self).cutoff_temperature,
            final(self).weatherman == old(self).weatherman,
            final(self).maturity == old(self).maturity,
    {
        if !is_reporter(ctx, &self.weatherman) {
            return Err(OracleError::Unauthorized);
        }
        self.temperature = temperature;
        Ok(())
    }

    /// Move the maturity deadline. Only the administrator may do so; a
    /// deadline of zero is legal. Any other caller is rejected and the
    /// state is unchanged.
    pub fn set_maturity_date(&mut self, ctx: &CallContext, maturity_date: u64) -> (r: Result<
        (),
        OracleError,
    >)
        ensures
            r is Ok <==> spec_is_administrator(ctx),
            r is Ok ==> final(self).maturity == maturity_date,
            r is Err ==> r == Err::<(), OracleError>(OracleError::Unauthorized),
            r is Err ==> *final(self) == *old(self),
            final(self).temperature == old(self).temperature,
            final(self).cutoff_temperature == old(self).cutoff_temperature,
            final(self).weatherman == old(self).weatherman,
    {
        if !is_administrator(ctx) {
            return Err(OracleError::Unauthorized);
        }
        self.maturity = maturity_date;
        Ok(())
    }

    /// Change the release threshold. Only the administrator may do so; a
    /// threshold of zero is legal. Any other caller is rejected and the
    /// state is unchanged.
    pub fn set_cutoff_temperature(&mut self, ctx: &CallContext, cutoff_temperature: u64) -> (r:
        Result<(), OracleError>)
        ensures
            r is Ok <==> spec_is_administrator(ctx),
            r is Ok ==> final(self).cutoff_temperature == cutoff_temperature,
            r is Err ==> r == Err::<(), OracleError>(OracleError::Unauthorized),
            r is Err ==> *final(self) == *old(self),
            final(self).temperature == old(self).temperature,
            final(self).weatherman == old(self).weatherman,
            final(self).maturity == old(self).maturity,
    {
        if !is_administrator(ctx) {
            return Err(OracleError::Unauthorized);
        }
        self.cutoff_temperature = cutoff_temperature;
        Ok(())
    }

    /// Condition-gated release: forward a signing request for the payload
    /// if the caller may sign it, the payload decodes, the instance has
    /// not yet matured, and the reported temperature strictly exceeds the
    /// cutoff. Mutates nothing; the returned request is handed to the
    /// external signer by the surrounding environment.
    pub fn liquidate(
        &mut self,
        ctx: &CallContext,
        rlp_payload: String,
        path: String,
        key_version: u32,
    ) -> (r: Result<SignRequest, OracleError>)
        ensures
            *final(self) == *old(self),
            r is Ok <==> spec_release_authorized(ctx, rlp_payload@) && is_valid_hex(
                encode_utf8(rlp_payload@),
            ) && ctx.block_timestamp < old(self).maturity && old(self).temperature > old(
                self,
            ).cutoff_temperature,
            r matches Ok(req) ==> req.payload@ == keccak_of(
                hex_decoded(encode_utf8(rlp_payload@)),
            ) && req.path@ == path@ && req.key_version == key_version,
            !spec_release_authorized(ctx, rlp_payload@) ==> r == Err::<SignRequest, OracleError>(
                OracleError::Unauthorized,
            ),
            spec_release_authorized(ctx, rlp_payload@) && !is_valid_hex(encode_utf8(rlp_payload@))
                ==> r == Err::<SignRequest, OracleError>(OracleError::InvalidPayload),
            spec_release_authorized(ctx, rlp_payload@) && is_valid_hex(encode_utf8(rlp_payload@))
                && ctx.block_timestamp >= old(self).maturity ==> r == Err::<
                SignRequest,
                OracleError,
            >(OracleError::AlreadyMatured),
            spec_release_authorized(ctx, rlp_payload@) && is_valid_hex(encode_utf8(rlp_payload@))
                && ctx.block_timestamp < old(self).maturity && old(self).temperature <= old(
                self,
            ).cutoff_temperature ==> r == Err::<SignRequest, OracleError>(
                OracleError::ConditionNotMet,
            ),
    {
        let public = is_public_payload(rlp_payload.as_str());
        if !public && !is_administrator(ctx) {
            return Err(OracleError::Unauthorized);
        }
        let decoded = match decode_hex(rlp_payload.as_str().as_bytes()) {
            Some(bytes) => bytes,
            None => {
                return Err(OracleError::InvalidPayload);
            },
        };
        if self.is_matured(ctx) {
            return Err(OracleError::AlreadyMatured);
        }
        if !self.is_above_cutoff() {
            return Err(OracleError::ConditionNotMet);
        }
        let payload = keccak256(decoded.as_slice());
        Ok(SignRequest { payload, path, key_version })
    }

    /// Maturity-gated release: forward a signing request for the payload
    /// if the caller may sign it, the payload decodes, and the instance
    /// has matured — regardless of the reported temperature. Mutates
    /// nothing.
    pub fn mature(
        &mut self,
        ctx: &CallContext,
        rlp_payload: String,
        path: String,
        key_version: u32,
    ) -> (r: Result<SignRequest, OracleError>)
        ensures
            *final(self) == *old(self),
            r is Ok <==> spec_release_authorized(ctx, rlp_payload@) && is_valid_hex(
                encode_utf8(rlp_payload@),
            ) && ctx.block_timestamp >= old(self).maturity,
            r matches Ok(req) ==> req.payload@ == keccak_of(
                hex_decoded(encode_utf8(rlp_payload@)),
            ) && req.path@ == path@ && req.key_version == key_version,
            !spec_release_authorized(ctx, rlp_payload@) ==> r == Err::<SignRequest, OracleError>(
                OracleError::Unauthorized,
            ),
            spec_release_authorized(ctx, rlp_payload@) && !is_valid_hex(encode_utf8(rlp_payload@))
                ==> r == Err::<SignRequest, OracleError>(OracleError::InvalidPayload),
            spec_release_authorized(ctx, rlp_payload@) && is_valid_hex(encode_utf8(rlp_payload@))
                && ctx.block_timestamp < old(self).maturity ==> r == Err::<
                SignRequest,
                OracleError,
            >(OracleError::NotYetMatured),
    {
        let public = is_public_payload(rlp_payload.as_str());
        if !public && !is_administrator(ctx) {
            return Err(OracleError::Unauthorized);
        }
        let decoded = match decode_hex(rlp_payload.as_str().as_bytes()) {
            Some(bytes) => bytes,
            None => {
                return Err(OracleError::InvalidPayload);
            },
        };
        if !self.is_matured(ctx) {
            return Err(OracleError::NotYetMatured);
        }
        let payload = keccak256(decoded.as_slice());
        Ok(SignRequest { payload, path, key_version })
    }
}

/// The authorization clause both release operations share: the payload is
/// classified public, or the caller is the administrator.
pub open spec fn spec_release_authorized(ctx: &CallContext, payload: Seq<char>) -> bool {
    spec_is_public_payload(payload) || spec_is_administrator(ctx)
}

impl Default for Contract {
    /// The instance the deploying environment builds when none was
    /// explicitly constructed: nothing reported, the default threshold and
    /// deadline, and the conventional reporter account.
    fn default() -> (c: Self)
        ensures
            c.temperature == 0,
            c.cutoff_temperature == DEFAULT_CUTOFF_TEMPERATURE,
            c.weatherman@ == "weatherman.near"@,
            c.maturity == DEFAULT_MATURITY,
    {
        Contract {
            temperature: 0,
            cutoff_temperature: DEFAULT_CUTOFF_TEMPERATURE,
            weatherman: "weatherman.near".to_owned(),
            maturity: DEFAULT_MATURITY,
        }
    }
}

} // verus!
