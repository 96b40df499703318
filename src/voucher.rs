use vstd::prelude::*;

verus! {

/// The kind of assertion a voucher request makes.
#[derive(Debug, Clone, Copy, PartialEq, Eq, Structural)]
pub enum Assertion {
    Proximity,
}

/// Signature algorithm of a voucher request.
#[derive(Debug, Clone, Copy, PartialEq, Eq, Structural)]
pub enum SignatureAlgorithm {
    ES256,
    ES384,
    ES512,
}

/// Why a voucher request could not be produced.
#[derive(Debug, Clone, Copy, PartialEq, Eq, Structural)]
pub enum VoucherError {
    /// The signing primitive failed (key material, algorithm, backend).
    SigningError,
    /// The canonical encoding could not be produced.
    SerializationError,
}

/// The fields of a voucher request that are covered by its signature.
#[derive(Debug, Clone, PartialEq, Eq)]
pub struct VoucherFields {
    pub assertion: Assertion,
    pub created_on: u64,
    pub serial_number: Vec<u8>,
    pub signature_algorithm: SignatureAlgorithm,
}

/// Abstract value of the signed fields.
pub struct FieldsView {
    pub assertion: Assertion,
    pub created_on: u64,
    pub serial_number: Seq<u8>,
    pub signature_algorithm: SignatureAlgorithm,
}

impl View for VoucherFields {
    type V = FieldsView;

    open spec fn view(&self) -> FieldsView {
        FieldsView {
            assertion: self.assertion,
            created_on: self.created_on,
            serial_number: self.serial_number@,
            signature_algorithm: self.signature_algorithm,
        }
    }
}

impl VoucherFields {
    pub fn new(
        assertion: Assertion,
        created_on: u64,
        serial_number: Vec<u8>,
        signature_algorithm: SignatureAlgorithm,
    ) -> (r: VoucherFields)
        ensures
            r@ == (FieldsView {
                assertion,
                created_on,
                serial_number: serial_number@,
                signature_algorithm,
            }),
    {
        VoucherFields { assertion, created_on, serial_number, signature_algorithm }
    }
}

/// Abstract value of a signed voucher request.
pub struct VoucherView {
    pub fields: FieldsView,
    pub signature: Seq<u8>,
    pub encoded_form: Seq<u8>,
}

/// What `seal` makes of the signed fields and the signing backend's
/// result: the backend's error as is, an empty signature as a signing
/// failure, an empty encoding as a serialization failure.
pub open spec fn seal_result(
    fields: FieldsView,
    signed: Result<(Seq<u8>, Seq<u8>), VoucherError>,
) -> Result<VoucherView, VoucherError> {
    match signed {
        Err(e) => Err(e),
        Ok((sig, enc)) => if sig.len() == 0 {
            Err(VoucherError::SigningError)
        } else if enc.len() == 0 {
            Err(VoucherError::SerializationError)
        } else {
            Ok(VoucherView { fields, signature: sig, encoded_form: enc })
        },
    }
}

pub open spec fn signed_view(
    signed: Result<(Vec<u8>, Vec<u8>), VoucherError>,
) -> Result<(Seq<u8>, Seq<u8>), VoucherError> {
    match signed {
        Ok((s, e)) => Ok((s@, e@)),
        Err(e) => Err(e),
    }
}

/// A signed voucher request: the signed fields, the signature over their
/// canonical encoding, and the encoded form of the whole record. It is
/// immutable once built, and both byte strings are non-empty.
#[derive(Debug, PartialEq, Eq)]
pub struct VoucherRequest {
    fields: VoucherFields,
    signature: Vec<u8>,
    encoded_form: Vec<u8>,
}

impl View for VoucherRequest {
    type V = VoucherView;

    closed spec fn view(&self) -> VoucherView {
        VoucherView {
            fields: self.fields@,
            signature: self.signature@,
            encoded_form: self.encoded_form@,
        }
    }
}

pub open spec fn request_result_view(r: Result<VoucherRequest, VoucherError>) -> Result<
    VoucherView,
    VoucherError,
> {
    match r {
        Ok(v) => Ok(v@),
        Err(e) => Err(e),
    }
}

impl VoucherRequest {
    #[verifier::type_invariant]
    spec fn non_empty(self) -> bool {
        self.signature@.len() > 0 && self.encoded_form@.len() > 0
    }

    /// Builds the request from its fields and what the signing backend
    /// returned for them: `(signature, encoded_form)` or its error.
    pub fn seal(
        fields: VoucherFields,
        signed: Result<(Vec<u8>, Vec<u8>), VoucherError>,
    ) -> (r: Result<VoucherRequest, VoucherError>)
        ensures
            request_result_view(r) == seal_result(fields@, signed_view(signed)),
    {
        match signed {
            Err(e) => Err(e),
            Ok((signature, encoded_form)) => {
                if signature.len() == 0 {
                    Err(VoucherError::SigningError)
                } else if encoded_form.len() == 0 {
                    Err(VoucherError::SerializationError)
                } else {
                    Ok(VoucherRequest { fields, signature, encoded_form })
                }
            },
        }
    }

    pub fn fields(&self) -> (r: &VoucherFields)
        ensures
            r@ == self@.fields,
    {
        &self.fields
    }

    pub fn signature(&self) -> (r: &Vec<u8>)
        ensures
            r@ == self@.signature,
            r@.len() > 0,
    {
        proof {
            use_type_invariant(self);
        }
        &self.signature
    }

    /// The wire form submitted to the registrar.
    pub fn encoded_form(&self) -> (r: &Vec<u8>)
        ensures
            r@ == self@.encoded_form,
            r@.len() > 0,
    {
        proof {
            use_type_invariant(self);
        }
        &self.encoded_form
    }
}

/// Building a request twice from the same fields gives requests with the
/// same fields, whatever signature bytes each signing produced; when the
/// signing backend is deterministic (equal outputs) the requests are equal.
pub proof fn lemma_seal_same_fields(
    fields: FieldsView,
    first: (Seq<u8>, Seq<u8>),
    second: (Seq<u8>, Seq<u8>),
)
    requires
        first.0.len() > 0 && first.1.len() > 0,
        second.0.len() > 0 && second.1.len() > 0,
    ensures
        seal_result(fields, Ok(first)) matches Ok(a) && a.fields == fields,
        seal_result(fields, Ok(second)) matches Ok(b) && b.fields == fields,
        first == second ==> seal_result(fields, Ok(first)) == seal_result(fields, Ok(second)),
{
}

} // verus!
