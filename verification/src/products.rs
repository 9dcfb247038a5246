//! Requests about products: what is to be submitted for each, and where their
//! state is read.

use crate::address::{address, address_spec, hash, hash_prefix, is_address};
use crate::agents::{fields_spec, one_text, read_fields};
use crate::batch::{
    batch_id_spec, encode_batch_list, single_batch_list, BatchList, BatchListView,
};
use crate::config::{copy_text, text_of, GatewayConfig};
use crate::error::{
    detail_of, label_of, shown_as, GatewayError, GatewayErrorView, RestApiResponseError,
    RestApiResponseErrorView,
};
use crate::payload::{payload_spec, Action, ActionKind, ActionView};
use crate::signing::{public_key_of, SigningContext};
use crate::state::{parse_product, Product, ProductType, ProductView};
use crate::submit::{PreparedSubmission, PreparedSubmissionView};
use vstd::prelude::*;
use vstd::string::*;

verus! {

/// The family of the transactions about products.
pub const PRODUCT_FAMILY_NAME: &'static str = "grid_product";

/// The version of that family.
pub const PRODUCT_FAMILY_VERSION: &'static str = "1.0";

/// The digits that follow the family's digits in the address of every product
/// that is named by a trade item number.
pub const PRODUCT_GS1_NAMESPACE: &'static str = "01";

/// What a caller says of a product. Roles and metadata are written as for an
/// agent.
#[derive(Debug, PartialEq, Eq)]
pub struct ProductData {
    /// The private key to sign with, as hexadecimal text.
    pub private_key: String,
    pub product_id: String,
    pub product_type: ProductType,
    pub owner: String,
    pub org_id: String,
    pub roles: String,
    pub metadata: String,
}

/// The kind of action that a plan leads to: creation where creation is planned,
/// change for every other plan.
pub open spec fn planned_kind(plan: ActionKind) -> ActionKind {
    if plan == ActionKind::CreateProduct {
        ActionKind::CreateProduct
    } else {
        ActionKind::UpdateProduct
    }
}

/// The batch list that is built of `input` for a plan, or how building it
/// fails: with a signing error where the key is unusable or gives no signature
/// that verifies, with a payload error where the metadata is malformed.
pub open spec fn product_batch_list(input: &ProductData, plan: ActionKind) -> Result<
    BatchListView,
    RestApiResponseErrorView,
> {
    match public_key_of(input.private_key@) {
        None => Err(shown_as(GatewayErrorView::SigningError)),
        Some(public_key) => match fields_spec(
            input.org_id@,
            public_key,
            input.roles@,
            input.metadata@,
        ) {
            None => Err(shown_as(GatewayErrorView::PayloadError)),
            Some(fields) => match single_batch_list(
                PRODUCT_FAMILY_NAME@,
                PRODUCT_FAMILY_VERSION@,
                payload_spec(ActionView { kind: planned_kind(plan), fields }),
                seq![hash_prefix(PRODUCT_FAMILY_NAME@, 6)],
                seq![hash_prefix(PRODUCT_FAMILY_NAME@, 6)],
                input.private_key@,
            ) {
                None => Err(shown_as(GatewayErrorView::SigningError)),
                Some(batch_list) => Ok(batch_list),
            },
        },
    }
}

/// The wire message that `do_batches` makes of `input` for a plan, or how it
/// fails.
pub open spec fn product_batches(input: &ProductData, plan: ActionKind) -> Result<
    Seq<u8>,
    RestApiResponseErrorView,
> {
    match product_batch_list(input, plan) {
        Ok(batch_list) => Ok(encode_batch_list(batch_list)),
        Err(error) => Err(error),
    }
}

/// What is prepared for the submission of a product under a configuration, or
/// how preparing it fails. The batch is submitted to the configured validator,
/// and no wait is granted for it.
pub open spec fn prepared_product(
    input: &ProductData,
    plan: ActionKind,
    config: &GatewayConfig,
) -> Result<PreparedSubmissionView, RestApiResponseErrorView> {
    match product_batch_list(input, plan) {
        Ok(batch_list) => Ok(
            PreparedSubmissionView {
                batch_list,
                batch_id: batch_id_spec(batch_list.batches[0].header),
                url: config.endpoint@,
                service_id: text_of(config.service_id),
                wait: None,
            },
        ),
        Err(error) => Err(product_failure(error)),
    }
}

/// What a failure to prepare a product is shown as: a user error that says what
/// failed.
pub open spec fn product_failure(error: RestApiResponseErrorView) -> RestApiResponseErrorView {
    RestApiResponseErrorView::UserError(
        "Cannot deserialize organization: "@ + (label_of(error) + detail_of(error)),
    )
}

/// Builds and signs the batch list for a product: one transaction of the
/// planned kind, in one batch, read and written under the family's namespace.
pub fn build_batches(input: &ProductData, action_plan: ActionKind) -> (res: Result<
    BatchList,
    RestApiResponseError,
>)
    ensures
        match product_batch_list(input, action_plan) {
            Ok(batch_list) => res matches Ok(found) && found@ == batch_list
                && batch_list.batches.len() == 1,
            Err(error) => res matches Err(found) && found@ == error,
        },
{
    let signer = match SigningContext::from_hex(input.private_key.as_str()) {
        Ok(signer) => signer,
        Err(_) => {
            return Err(RestApiResponseError::from_gateway_error(GatewayError::SigningError));
        },
    };
    let fields = match read_fields(
        input.org_id.clone(),
        signer.public_key_hex(),
        input.roles.as_str(),
        input.metadata.as_str(),
    ) {
        Ok(fields) => fields,
        Err(_) => {
            return Err(RestApiResponseError::from_gateway_error(GatewayError::PayloadError));
        },
    };
    let action = if action_plan == ActionKind::CreateProduct {
        Action::CreateProduct(fields)
    } else {
        Action::UpdateProduct(fields)
    };
    let payload = action.to_bytes();
    let namespace = hash(PRODUCT_FAMILY_NAME, 6);
    match BatchList::of_payload(
        PRODUCT_FAMILY_NAME,
        PRODUCT_FAMILY_VERSION,
        payload,
        one_text(namespace.as_str()),
        one_text(namespace.as_str()),
        signer,
    ) {
        Ok(batch_list) => Ok(batch_list),
        Err(_) => Err(RestApiResponseError::from_gateway_error(GatewayError::SigningError)),
    }
}

/// Builds, signs and writes the batch list for a product: the wire message.
pub fn do_batches(input: &ProductData, action_plan: ActionKind) -> (res: Result<
    Vec<u8>,
    RestApiResponseError,
>)
    ensures
        match product_batches(input, action_plan) {
            Ok(bytes) => res matches Ok(found) && found@ == bytes,
            Err(error) => res matches Err(found) && found@ == error,
        },
{
    match build_batches(input, action_plan) {
        Ok(batch_list) => Ok(batch_list.to_bytes()),
        Err(error) => Err(error),
    }
}

/// Prepares the submission of a product for a plan.
pub fn prepare_product(
    input: &ProductData,
    action_plan: ActionKind,
    config: &GatewayConfig,
) -> (res: Result<PreparedSubmission, RestApiResponseError>)
    ensures
        match prepared_product(input, action_plan, config) {
            Ok(prepared) => res matches Ok(found) && found@ == prepared,
            Err(error) => res matches Err(found) && found@ == error,
        },
{
    match build_batches(input, action_plan) {
        Ok(batch_list) => match PreparedSubmission::new(
            batch_list,
            config.endpoint.clone(),
            copy_text(&config.service_id),
            None,
        ) {
            Some(prepared) => Ok(prepared),
            None => Err(
                product_error(
                    &RestApiResponseError::from_gateway_error(GatewayError::EmptyBatchError),
                ),
            ),
        },
        Err(error) => Err(product_error(&error)),
    }
}

/// Shows a failure to prepare a product.
pub fn product_error(error: &RestApiResponseError) -> (shown: RestApiResponseError)
    ensures
        shown@ == product_failure(error@),
{
    RestApiResponseError::UserError(
        "Cannot deserialize organization: ".to_owned().concat(error.message().as_str()),
    )
}

/// Prepares the creation of a product: what is to be submitted, to the
/// configured validator and without wait. Nothing is sent.
pub fn create_product(input: &ProductData, config: &GatewayConfig) -> (res: Result<
    PreparedSubmission,
    RestApiResponseError,
>)
    ensures
        match prepared_product(input, ActionKind::CreateProduct, config) {
            Ok(prepared) => res matches Ok(found) && found@ == prepared,
            Err(error) => res matches Err(found) && found@ == error,
        },
{
    prepare_product(input, ActionKind::CreateProduct, config)
}

/// Prepares the change of a product: what is to be submitted, to the
/// configured validator and without wait. Nothing is sent.
pub fn update_product(input: &ProductData, config: &GatewayConfig) -> (res: Result<
    PreparedSubmission,
    RestApiResponseError,
>)
    ensures
        match prepared_product(input, ActionKind::UpdateProduct, config) {
            Ok(prepared) => res matches Ok(found) && found@ == prepared,
            Err(error) => res matches Err(found) && found@ == error,
        },
{
    prepare_product(input, ActionKind::UpdateProduct, config)
}

/// Where the state of all products is read: the state of every address that
/// begins with the family's digits and those of the trade item numbers.
pub fn list_products(config: &GatewayConfig) -> (url: String)
    ensures
        url@ == config.endpoint@ + "/state?address="@ + hash_prefix(PRODUCT_FAMILY_NAME@, 6)
            + PRODUCT_GS1_NAMESPACE@,
{
    let namespace = hash(PRODUCT_FAMILY_NAME, 6);
    config.endpoint.clone().concat("/state?address=").concat(namespace.as_str()).concat(
        PRODUCT_GS1_NAMESPACE,
    )
}

/// Where the state of the product `product_id` is read: at its address in the
/// family's namespace. An empty identity has no address and is a bad request.
pub fn fetch_product(config: &GatewayConfig, product_id: &str) -> (res: Result<
    String,
    RestApiResponseError,
>)
    ensures
        product_id@.len() == 0 ==> (res matches Err(found) && found@ == shown_as(
            GatewayErrorView::AddressingError,
        )),
        product_id@.len() > 0 ==> (res matches Ok(url) && url@ == config.endpoint@ + "/state/"@
            + address_spec(PRODUCT_FAMILY_NAME@, product_id@) && is_address(
            address_spec(PRODUCT_FAMILY_NAME@, product_id@),
        )),
{
    proof {
        reveal_strlit("grid_product");
    }
    match address(PRODUCT_FAMILY_NAME, product_id) {
        Ok(found) => Ok(config.endpoint.clone().concat("/state/").concat(found.as_str())),
        Err(error) => Err(RestApiResponseError::from_gateway_error(error)),
    }
}

/// The bytes that base64 text stands for, where it is well-formed base64 of the
/// standard alphabet with padding.
pub uninterp spec fn base64_decoding(text: Seq<char>) -> Option<Seq<u8>>;

/// Trusted: `base64::decode`, which reads the standard alphabet with padding and
/// refuses any other input.
#[verifier::external_body]
fn base64_decode(text: &str) -> (bytes: Option<Vec<u8>>)
    ensures
        match base64_decoding(text@) {
            Some(decoded) => bytes matches Some(found) && found@ == decoded,
            None => bytes is None,
        },
{
    base64::decode(text).ok()
}

/// How an entry of state that is not base64 is shown.
pub open spec fn malformed_state() -> RestApiResponseErrorView {
    RestApiResponseErrorView::SawtoothValidatorResponseError(
        "State entry is not well-formed base64"@,
    )
}

/// What is handed out for the result of decoding an entry of state.
pub fn decoded_state(decoded: Option<Vec<u8>>) -> (res: Result<Vec<u8>, RestApiResponseError>)
    ensures
        match decoded {
            Some(bytes) => res matches Ok(found) && found@ == bytes@,
            None => res matches Err(found) && found@ == malformed_state(),
        },
{
    match decoded {
        Some(bytes) => Ok(bytes),
        None => Err(
            RestApiResponseError::SawtoothValidatorResponseError(
                "State entry is not well-formed base64".to_owned(),
            ),
        ),
    }
}

/// Reads the bytes of an entry of state, which the validator hands out as
/// base64 text.
pub fn decode_state_data(data: &str) -> (res: Result<Vec<u8>, RestApiResponseError>)
    ensures
        match base64_decoding(data@) {
            Some(bytes) => res matches Ok(found) && found@ == bytes,
            None => res matches Err(found) && found@ == malformed_state(),
        },
{
    decoded_state(base64_decode(data))
}

/// How an entry of state that does not hold a product is shown.
pub open spec fn no_product() -> RestApiResponseErrorView {
    RestApiResponseErrorView::SawtoothValidatorResponseError("State entry is no product"@)
}

/// The product that decoded bytes hold, or how they are refused: as malformed
/// where there are no bytes because the entry was not base64, as no product
/// where the bytes are not the encoding of a product.
pub open spec fn product_in(decoded: Option<Seq<u8>>) -> Result<
    ProductView,
    RestApiResponseErrorView,
> {
    match decoded {
        None => Err(malformed_state()),
        Some(bytes) => match parse_product(bytes) {
            Some(product) => Ok(product),
            None => Err(no_product()),
        },
    }
}

/// Reads the product that the decoded bytes of an entry of state hold.
pub fn product_of(decoded: Option<Vec<u8>>) -> (res: Result<Product, RestApiResponseError>)
    ensures
        match product_in(
            match decoded {
                Some(bytes) => Some(bytes@),
                None => None,
            },
        ) {
            Ok(product) => res matches Ok(found) && found@ == product,
            Err(error) => res matches Err(found) && found@ == error,
        },
{
    match decoded_state(decoded) {
        Ok(bytes) => match Product::from_bytes(bytes.as_slice()) {
            Some(product) => Ok(product),
            None => Err(
                RestApiResponseError::SawtoothValidatorResponseError(
                    "State entry is no product".to_owned(),
                ),
            ),
        },
        Err(error) => Err(error),
    }
}

/// Reads the product in an entry of state, which the validator hands out as
/// base64 text. An entry that is not base64, or whose bytes are not a product,
/// is refused.
pub fn read_product(data: &str) -> (res: Result<Product, RestApiResponseError>)
    ensures
        match product_in(base64_decoding(data@)) {
            Ok(product) => res matches Ok(found) && found@ == product,
            Err(error) => res matches Err(found) && found@ == error,
        },
{
    product_of(base64_decode(data))
}

} // verus!
