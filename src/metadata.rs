use vstd::prelude::*;

use crate::error::MintToolError;
use crate::primitives::{
    cid_bytes_of, decode_hex, has_uri_scheme, starts_with_scheme, guess_mime, hex_decoded, is_valid_uri, mime_of_path, parse_cid,
    principal_text, principal_text_of, sha256, sha256_of, uri_valid, MAX_PRINCIPAL_BYTES,
};
use crate::types::{MetadataKey, MetadataPart, MetadataPurpose, MetadataVal, MetadataValue};

verus! {

/// The content type used when none is given and none can be inferred.
pub const DEFAULT_CONTENT_TYPE: &'static str = "application/octet-stream";

/// Where the token's content lives: at most one source is ever chosen.
#[derive(Debug)]
pub enum LocationSource {
    /// A textual IPFS content identifier.
    ContentAddress(String),
    /// The bytes of the principal of an asset container on the ledger.
    ContainerReference(Vec<u8>),
    /// A URI on the internet.
    ExternalUri(String),
    /// No location.
    Unspecified,
}

/// The location source chosen from three optional inputs, or
/// `ConflictingLocation` where two or more are given.
pub open spec fn location_choice(
    content_address: Option<String>,
    container: Option<Vec<u8>>,
    uri: Option<String>,
) -> Result<LocationSource, MintToolError> {
    match (content_address, container, uri) {
        (Some(a), None, None) => Ok(LocationSource::ContentAddress(a)),
        (None, Some(c), None) => Ok(LocationSource::ContainerReference(c)),
        (None, None, Some(u)) => Ok(LocationSource::ExternalUri(u)),
        (None, None, None) => Ok(LocationSource::Unspecified),
        _ => Err(MintToolError::ConflictingLocation),
    }
}

/// The location type code and the location value of a source.
pub open spec fn location_entry(src: LocationSource) -> Result<
    (u8, Option<MetadataValue>),
    MintToolError,
> {
    match src {
        LocationSource::ContentAddress(a) => match cid_bytes_of(a@) {
            Some(b) => Ok((1u8, Some(MetadataValue::Blob(b)))),
            None => Err(MintToolError::MalformedIdentifier),
        },
        LocationSource::ContainerReference(c) => if c@.len() <= MAX_PRINCIPAL_BYTES {
            Ok((2u8, Some(MetadataValue::Text(principal_text_of(c@)))))
        } else {
            Err(MintToolError::MalformedIdentifier)
        },
        LocationSource::ExternalUri(u) => if has_uri_scheme(u@) && uri_valid(u@) {
            Ok((3u8, Some(MetadataValue::Text(u@))))
        } else {
            Err(MintToolError::InvalidUri)
        },
        LocationSource::Unspecified => Ok((4u8, None)),
    }
}

pub open spec fn opt_value_view(v: Option<MetadataVal>) -> Option<MetadataValue> {
    match v {
        Some(x) => Some(x@),
        None => None,
    }
}

pub open spec fn opt_bytes_view(v: Option<Vec<u8>>) -> Option<Seq<u8>> {
    match v {
        Some(x) => Some(x@),
        None => None,
    }
}

impl LocationSource {
    /// Chooses the location source; two or more given sources are an error,
    /// never resolved silently.
    pub fn from_options(
        content_address: Option<String>,
        container: Option<Vec<u8>>,
        uri: Option<String>,
    ) -> (r: Result<LocationSource, MintToolError>)
        ensures
            r == location_choice(content_address, container, uri),
    {
        match (content_address, container, uri) {
            (Some(a), None, None) => Ok(LocationSource::ContentAddress(a)),
            (None, Some(c), None) => Ok(LocationSource::ContainerReference(c)),
            (None, None, Some(u)) => Ok(LocationSource::ExternalUri(u)),
            (None, None, None) => Ok(LocationSource::Unspecified),
            _ => Err(MintToolError::ConflictingLocation),
        }
    }
}

/// Turns a location source into its type code (content address 1, container
/// 2, URI 3, none 4) and its location value: the binary content identifier,
/// the principal's text, or the URI itself.
pub fn resolve_location(src: &LocationSource) -> (r: Result<(u8, Option<MetadataVal>), MintToolError>)
    ensures
        match r {
            Ok((code, v)) => location_entry(*src) == Ok::<(u8, Option<MetadataValue>), MintToolError>(
                (code, opt_value_view(v)),
            ),
            Err(e) => location_entry(*src) == Err::<(u8, Option<MetadataValue>), MintToolError>(e),
        },
{
    match src {
        LocationSource::ContentAddress(a) => match parse_cid(a.as_str()) {
            Some(b) => Ok((1u8, Some(MetadataVal::BlobContent(b)))),
            None => Err(MintToolError::MalformedIdentifier),
        },
        LocationSource::ContainerReference(c) => {
            if c.len() <= MAX_PRINCIPAL_BYTES {
                Ok((2u8, Some(MetadataVal::TextContent(principal_text(c)))))
            } else {
                Err(MintToolError::MalformedIdentifier)
            }
        },
        LocationSource::ExternalUri(u) => {
            if starts_with_scheme(u.as_str()) && is_valid_uri(u.as_str()) {
                Ok((3u8, Some(MetadataVal::TextContent(u.clone()))))
            } else {
                Err(MintToolError::InvalidUri)
            }
        },
        LocationSource::Unspecified => Ok((4u8, None)),
    }
}

/// A file whose content is sent with the token.
#[derive(Debug)]
pub struct ContentFile {
    pub name: String,
    pub data: Vec<u8>,
}

/// Everything the metadata record is built from.
#[derive(Debug)]
pub struct MintRequest {
    pub location: LocationSource,
    /// A content hash given in hex.
    pub sha2: Option<String>,
    /// Whether to hash the file's content when no hash is given.
    pub sha2_auto: bool,
    pub file: Option<ContentFile>,
    /// A content type given explicitly.
    pub mime_type: Option<String>,
}

impl MintRequest {
    /// Whether the request gives a content hash or a way to compute one.
    pub open spec fn hash_supplied(&self) -> bool {
        self.sha2 is Some || (self.sha2_auto && self.file is Some)
    }

    /// Content given only by URI cannot be checked, so it needs a hash.
    pub open spec fn wf(&self) -> bool {
        self.location is ExternalUri ==> self.hash_supplied()
    }

    /// The content bytes the request sends: the file's, or none.
    pub open spec fn content(&self) -> Seq<u8> {
        match self.file {
            Some(f) => f.data@,
            None => Seq::empty(),
        }
    }
}

/// The request built from the raw inputs, or the validation error.
pub open spec fn request_built(
    content_address: Option<String>,
    container: Option<Vec<u8>>,
    uri: Option<String>,
    sha2: Option<String>,
    sha2_auto: bool,
    file: Option<ContentFile>,
    mime_type: Option<String>,
) -> Result<MintRequest, MintToolError> {
    match location_choice(content_address, container, uri) {
        Err(e) => Err(e),
        Ok(location) => {
            let req = MintRequest { location, sha2, sha2_auto, file, mime_type };
            if req.wf() {
                Ok(req)
            } else {
                Err(MintToolError::MissingHash)
            }
        },
    }
}

impl MintRequest {
    /// Validates the raw inputs: at most one location source, and a hash
    /// wherever the content is given by URI.
    pub fn new(
        content_address: Option<String>,
        container: Option<Vec<u8>>,
        uri: Option<String>,
        sha2: Option<String>,
        sha2_auto: bool,
        file: Option<ContentFile>,
        mime_type: Option<String>,
    ) -> (r: Result<MintRequest, MintToolError>)
        ensures
            r == request_built(content_address, container, uri, sha2, sha2_auto, file, mime_type),
            r matches Ok(req) ==> req.wf(),
    {
        let location = match LocationSource::from_options(content_address, container, uri) {
            Ok(l) => l,
            Err(e) => {
                return Err(e);
            },
        };
        let uri_given = match location {
            LocationSource::ExternalUri(_) => true,
            _ => false,
        };
        let hash_given = sha2.is_some() || (sha2_auto && file.is_some());
        if uri_given && !hash_given {
            Err(MintToolError::MissingHash)
        } else {
            Ok(MintRequest { location, sha2, sha2_auto, file, mime_type })
        }
    }
}

/// The content hash of a request: the explicit hex hash decoded, else the
/// SHA-256 of the file when automatic hashing is asked for, else none.
pub open spec fn hash_entry(req: MintRequest) -> Result<Option<Seq<u8>>, MintToolError> {
    match req.sha2 {
        Some(s) => match hex_decoded(s@) {
            Some(b) => Ok(Some(b)),
            None => Err(MintToolError::MalformedHash),
        },
        None => match req.file {
            Some(f) => if req.sha2_auto {
                Ok(Some(sha256_of(f.data@)))
            } else {
                Ok(None)
            },
            None => Ok(None),
        },
    }
}

/// The content type of a request: the explicit one, else the one inferred
/// from the file's name, else the default.
pub open spec fn content_type_of(req: MintRequest) -> Seq<char> {
    match req.mime_type {
        Some(m) => m@,
        None => match req.file {
            Some(f) => match mime_of_path(f.name@) {
                Some(g) => g,
                None => DEFAULT_CONTENT_TYPE@,
            },
            None => DEFAULT_CONTENT_TYPE@,
        },
    }
}

/// The metadata record in key order: location type, location if any,
/// content hash if any, content type.
pub open spec fn record_of(
    code: u8,
    location: Option<MetadataValue>,
    hash: Option<Seq<u8>>,
    content_type: Seq<char>,
) -> Seq<(MetadataKey, MetadataValue)> {
    seq![(MetadataKey::LocationType, MetadataValue::Nat8(code))] + match location {
        Some(v) => seq![(MetadataKey::Location, v)],
        None => Seq::empty(),
    } + match hash {
        Some(h) => seq![(MetadataKey::ContentHash, MetadataValue::Blob(h))],
        None => Seq::empty(),
    } + seq![(MetadataKey::ContentType, MetadataValue::Text(content_type))]
}

/// The metadata record of a request, or the first error met in building it.
pub open spec fn metadata_record(req: MintRequest) -> Result<
    Seq<(MetadataKey, MetadataValue)>,
    MintToolError,
> {
    match location_entry(req.location) {
        Err(e) => Err(e),
        Ok((code, location)) => match hash_entry(req) {
            Err(e) => Err(e),
            Ok(hash) => Ok(record_of(code, location, hash, content_type_of(req))),
        },
    }
}

/// The mathematical value of a record's entries.
pub open spec fn entries_view(v: Seq<(MetadataKey, MetadataVal)>) -> Seq<
    (MetadataKey, MetadataValue),
> {
    v.map_values(|e: (MetadataKey, MetadataVal)| (e.0, e.1@))
}

/// Computes the content hash of a request.
pub fn content_hash(req: &MintRequest) -> (r: Result<Option<Vec<u8>>, MintToolError>)
    ensures
        match r {
            Ok(h) => hash_entry(*req) == Ok::<Option<Seq<u8>>, MintToolError>(opt_bytes_view(h)),
            Err(e) => hash_entry(*req) == Err::<Option<Seq<u8>>, MintToolError>(e),
        },
        req.sha2 is None ==> (r matches Ok(Some(h)) ==> h@.len() == 32),
{
    match &req.sha2 {
        Some(s) => match decode_hex(s.as_str()) {
            Some(b) => Ok(Some(b)),
            None => Err(MintToolError::MalformedHash),
        },
        None => match &req.file {
            Some(f) => {
                if req.sha2_auto {
                    Ok(Some(sha256(&f.data)))
                } else {
                    Ok(None)
                }
            },
            None => Ok(None),
        },
    }
}

/// Resolves the content type: explicit override, then inference from the
/// file name's extension, then `application/octet-stream`.
pub fn content_type(req: &MintRequest) -> (r: String)
    ensures
        r@ == content_type_of(*req),
{
    match &req.mime_type {
        Some(m) => m.clone(),
        None => match &req.file {
            Some(f) => match guess_mime(f.name.as_str()) {
                Some(g) => g,
                None => DEFAULT_CONTENT_TYPE.to_owned(),
            },
            None => DEFAULT_CONTENT_TYPE.to_owned(),
        },
    }
}

/// Builds the metadata record of a request.
pub fn assemble_metadata(req: &MintRequest) -> (r: Result<Vec<(MetadataKey, MetadataVal)>, MintToolError>)
    ensures
        match r {
            Ok(rec) => metadata_record(*req) == Ok::<
                Seq<(MetadataKey, MetadataValue)>,
                MintToolError,
            >(entries_view(rec@)),
            Err(e) => metadata_record(*req) == Err::<
                Seq<(MetadataKey, MetadataValue)>,
                MintToolError,
            >(e),
        },
{
    let (code, location) = match resolve_location(&req.location) {
        Ok(p) => p,
        Err(e) => {
            return Err(e);
        },
    };
    let hash = match content_hash(req) {
        Ok(h) => h,
        Err(e) => {
            return Err(e);
        },
    };
    let ctype = content_type(req);
    let ghost loc_view = opt_value_view(location);
    let ghost hash_view = opt_bytes_view(hash);
    let ghost ctype_view = ctype@;
    let mut rec: Vec<(MetadataKey, MetadataVal)> = Vec::new();
    rec.push((MetadataKey::LocationType, MetadataVal::Nat8Content(code)));
    let ghost part1 = seq![(MetadataKey::LocationType, MetadataValue::Nat8(code))];
    assert(entries_view(rec@) =~= part1);
    match location {
        Some(v) => {
            rec.push((MetadataKey::Location, v));
        },
        None => {},
    }
    let ghost part2 = part1 + match loc_view {
        Some(v) => seq![(MetadataKey::Location, v)],
        None => Seq::empty(),
    };
    assert(entries_view(rec@) =~= part2);
    match hash {
        Some(h) => {
            rec.push((MetadataKey::ContentHash, MetadataVal::BlobContent(h)));
        },
        None => {},
    }
    let ghost part3 = part2 + match hash_view {
        Some(h) => seq![(MetadataKey::ContentHash, MetadataValue::Blob(h))],
        None => Seq::empty(),
    };
    assert(entries_view(rec@) =~= part3);
    rec.push((MetadataKey::ContentType, MetadataVal::TextContent(ctype)));
    assert(entries_view(rec@) =~= record_of(code, loc_view, hash_view, ctype_view));
    Ok(rec)
}

/// Builds the metadata part sent with the mint call: purpose `Rendered`, the
/// request's metadata record, and the file's content (empty without a file).
pub fn build_metadata_part(req: MintRequest) -> (r: Result<MetadataPart, MintToolError>)
    ensures
        match r {
            Ok(part) => {
                &&& part.purpose == MetadataPurpose::Rendered
                &&& metadata_record(req) == Ok::<Seq<(MetadataKey, MetadataValue)>, MintToolError>(
                    entries_view(part.key_val_data@),
                )
                &&& part.data@ == req.content()
            },
            Err(e) => metadata_record(req) == Err::<
                Seq<(MetadataKey, MetadataValue)>,
                MintToolError,
            >(e),
        },
{
    let record = match assemble_metadata(&req) {
        Ok(rec) => rec,
        Err(e) => {
            return Err(e);
        },
    };
    let data = match req.file {
        Some(f) => f.data,
        None => Vec::new(),
    };
    Ok(MetadataPart { purpose: MetadataPurpose::Rendered, key_val_data: record, data })
}

/// Whether a record holds an entry under `key`.
pub open spec fn has_key(rec: Seq<(MetadataKey, MetadataValue)>, key: MetadataKey) -> bool {
    exists|i: int| 0 <= i < rec.len() && rec[i].0 == key
}

/// Two or more location sources are always rejected, whatever else the
/// request holds.
pub proof fn lemma_conflicting_locations_rejected(
    content_address: Option<String>,
    container: Option<Vec<u8>>,
    uri: Option<String>,
    sha2: Option<String>,
    sha2_auto: bool,
    file: Option<ContentFile>,
    mime_type: Option<String>,
)
    requires
        (content_address is Some && container is Some) || (content_address is Some && uri is Some)
            || (container is Some && uri is Some),
    ensures
        location_choice(content_address, container, uri) == Err::<LocationSource, MintToolError>(
            MintToolError::ConflictingLocation,
        ),
        request_built(content_address, container, uri, sha2, sha2_auto, file, mime_type) == Err::<
            MintRequest,
            MintToolError,
        >(MintToolError::ConflictingLocation),
{
}

/// A URI without a hash, explicit or computed from a file, never builds a
/// request; where it is the only location source the error is `MissingHash`.
pub proof fn lemma_uri_without_hash_rejected(
    content_address: Option<String>,
    container: Option<Vec<u8>>,
    uri: Option<String>,
    sha2: Option<String>,
    sha2_auto: bool,
    file: Option<ContentFile>,
    mime_type: Option<String>,
)
    requires
        uri is Some,
        sha2 is None,
        !(sha2_auto && file is Some),
    ensures
        request_built(content_address, container, uri, sha2, sha2_auto, file, mime_type) is Err,
        content_address is None && container is None ==> request_built(
            content_address,
            container,
            uri,
            sha2,
            sha2_auto,
            file,
            mime_type,
        ) == Err::<MintRequest, MintToolError>(MintToolError::MissingHash),
{
}

/// The computed content hash depends on the content bytes alone: two
/// requests that hash the same bytes get the same SHA-256 digest.
pub proof fn lemma_auto_hash_deterministic(a: MintRequest, b: MintRequest)
    requires
        a.sha2 is None && a.sha2_auto && a.file is Some,
        b.sha2 is None && b.sha2_auto && b.file is Some,
        a.content() == b.content(),
    ensures
        hash_entry(a) == hash_entry(b),
        hash_entry(a) == Ok::<Option<Seq<u8>>, MintToolError>(Some(sha256_of(a.content()))),
{
}

/// Every record holds the location type first, with a code from 1 to 4, and
/// the content type last; it holds a location exactly when the code is not 4.
pub proof fn lemma_record_shape(req: MintRequest)
    requires
        metadata_record(req) is Ok,
    ensures
        ({
            let rec = metadata_record(req)->Ok_0;
            &&& rec.len() >= 2
            &&& rec[0].0 == MetadataKey::LocationType
            &&& rec[0].1 is Nat8
            &&& 1 <= rec[0].1->Nat8_0 <= 4
            &&& rec[rec.len() - 1].0 == MetadataKey::ContentType
            &&& has_key(rec, MetadataKey::LocationType)
            &&& has_key(rec, MetadataKey::ContentType)
            &&& has_key(rec, MetadataKey::Location) <==> rec[0].1 != MetadataValue::Nat8(4)
            &&& forall|i: int, j: int| 0 <= i < j < rec.len() ==> rec[i].0 != rec[j].0
        }),
{
    let rec = metadata_record(req)->Ok_0;
    let (code, location) = location_entry(req.location)->Ok_0;
    let hash = hash_entry(req)->Ok_0;
    let ct = content_type_of(req);
    assert(rec == record_of(code, location, hash, ct));
    assert(rec[0].0 == MetadataKey::LocationType);
    assert(rec[rec.len() - 1].0 == MetadataKey::ContentType);
    if code == 4 {
        assert(location is None);
        assert forall|i: int| 0 <= i < rec.len() implies rec[i].0 != MetadataKey::Location by {
        }
    } else {
        assert(location is Some);
        assert(rec[1].0 == MetadataKey::Location);
    }
}

} // verus!
