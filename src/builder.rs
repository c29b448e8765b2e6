//! The extrinsic builder: a call is attached once, which moves the builder
//! from `Unvalidated` to `Valid`; only a `Valid` builder yields the bytes to
//! sign and to submit.
use vstd::prelude::*;
use vstd::string::StringSliceAdditionalSpecFns;
use core::marker::PhantomData;
use crate::bytes::append_bytes;
use crate::client::AccountId;
use crate::codec::{compact_bytes, encode_compact};
use crate::metadata::{call_error_matches, resolved_call, Encoded, Metadata, MetadataError};
use crate::srml::system::System;

verus! {

/// The state of a builder that holds no call yet.
#[derive(Clone, Copy, Debug)]
pub struct Unvalidated;

/// The state of a builder that holds exactly one encoded call.
#[derive(Clone, Debug)]
pub struct Valid {
    pub call: Encoded,
}

/// Builds one extrinsic for the runtime `T`, signed by `signer`.
pub struct XtBuilder<T, S> {
    pub metadata: Metadata,
    pub signer: AccountId,
    pub state: S,
    pub runtime: PhantomData<T>,
}

/// The version byte of a signed extrinsic.
pub const SIGNED_VERSION: u8 = 0x84;

/// The body of a signed extrinsic: version byte, signer, signature, the
/// signed extra data, then the call.
pub open spec fn extrinsic_body(signer: Seq<u8>, signature: Seq<u8>, extra: Seq<u8>, call: Seq<u8>) -> Seq<u8> {
    seq![SIGNED_VERSION] + signer + signature + extra + call
}

/// A signed extrinsic: the compact length of its body, then the body.
pub open spec fn extrinsic_bytes(signer: Seq<u8>, signature: Seq<u8>, extra: Seq<u8>, call: Seq<u8>) -> Seq<u8> {
    let body = extrinsic_body(signer, signature, extra, call);
    compact_bytes(body.len() as u128) + body
}

impl<T: System> XtBuilder<T, Unvalidated> {
    /// A builder with no call, for `signer`, over a metadata document.
    pub fn new(metadata: Metadata, signer: AccountId) -> (r: Self)
        ensures
            r.metadata == metadata,
            r.signer == signer,
    {
        XtBuilder { metadata, signer, state: Unvalidated, runtime: PhantomData }
    }

    /// Attaches the call `call` of module `module` with encoded arguments;
    /// on an unknown name no builder comes out.
    pub fn module_call(self, module: &str, call: &str, args: &[u8]) -> (r: Result<XtBuilder<T, Valid>, MetadataError>)
        ensures
            match resolved_call(self.metadata, module.spec_bytes(), call.spec_bytes(), args@) {
                Some(b) => r matches Ok(x) && x.state.call.bytes@ == b
                    && x.metadata == self.metadata && x.signer == self.signer,
                None => r matches Err(e)
                    && call_error_matches(self.metadata, module.spec_bytes(), call.spec_bytes(), e),
            },
    {
        let encoded = self.metadata.encode_call(module, call, args)?;
        Ok(XtBuilder {
            metadata: self.metadata,
            signer: self.signer,
            state: Valid { call: encoded },
            runtime: PhantomData,
        })
    }
}

impl<T: System> XtBuilder<T, Valid> {
    /// The encoded call this builder carries.
    pub fn call(&self) -> (r: &Encoded)
        ensures
            r == &self.state.call,
    {
        &self.state.call
    }

    /// The bytes the signer signs for account nonce `nonce`: the call, then
    /// the runtime's extra data for that nonce.
    pub fn signing_payload(&self, nonce: u64) -> (r: Vec<u8>)
        ensures
            r@ == self.state.call.bytes@ + T::spec_extra(nonce),
    {
        let mut r: Vec<u8> = Vec::new();
        append_bytes(&mut r, self.state.call.bytes.as_slice());
        let extra = T::extra(nonce);
        append_bytes(&mut r, extra.as_slice());
        assert(r@ =~= self.state.call.bytes@ + T::spec_extra(nonce));
        r
    }

    /// The finished extrinsic for account nonce `nonce` and the signature of
    /// the signing payload, ready for the transport.
    pub fn extrinsic(&self, nonce: u64, signature: &[u8]) -> (r: Vec<u8>)
        ensures
            r@ == extrinsic_bytes(self.signer.bytes@, signature@, T::spec_extra(nonce), self.state.call.bytes@),
    {
        let mut body: Vec<u8> = Vec::new();
        body.push(SIGNED_VERSION);
        append_bytes(&mut body, self.signer.bytes.as_slice());
        append_bytes(&mut body, signature);
        let extra = T::extra(nonce);
        append_bytes(&mut body, extra.as_slice());
        append_bytes(&mut body, self.state.call.bytes.as_slice());
        assert(body@ =~= extrinsic_body(self.signer.bytes@, signature@, T::spec_extra(nonce), self.state.call.bytes@));
        let mut r = encode_compact(body.len() as u128);
        append_bytes(&mut r, body.as_slice());
        r
    }
}

} // verus!
