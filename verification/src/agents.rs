//! Requests about agents: what is to be submitted for each, and how long the
//! caller is to wait for it.

use crate::batch::{batch_id_spec, single_batch_list, BatchList, BatchListView};
use crate::config::{
    copy_text, owned_or, owned_or_empty, text_of, text_or, text_or_empty, GatewayConfig,
};
use crate::error::{
    shown_as, GatewayError, GatewayErrorView, RestApiResponseError, RestApiResponseErrorView,
};
use crate::payload::{
    list_spec, parse_entries, payload_spec, split_list, Action, ActionFields, ActionFieldsView,
    ActionKind, ActionView, KeyValueEntry,
};
use crate::signing::{public_key_of, SigningContext};
use crate::submit::{PreparedSubmission, PreparedSubmissionView};
use crate::wait::{
    bad_wait_message, lemma_numeric_wait_is_granted, parse_seconds, resolve_wait, resolved_wait,
    wait_ceiling,
};
use vstd::prelude::*;
use vstd::string::*;

verus! {

/// The family of the transactions about agents.
pub const PIKE_FAMILY_NAME: &'static str = "pike";

/// The version of that family.
pub const PIKE_FAMILY_VERSION: &'static str = "0.1";

/// The six digits that begin every address of that family.
pub const PIKE_NAMESPACE: &'static str = "cad11d";

/// What a caller says of a new agent. Roles are written as one text with commas
/// between them; metadata as one text with commas between the entries, each a
/// key, an equals sign and a value.
#[derive(Debug, PartialEq, Eq)]
pub struct NewAgentData {
    pub org_id: Option<String>,
    pub roles: Option<String>,
    pub metadata: Option<String>,
}

/// The body of a request for a new agent.
#[derive(Debug, PartialEq, Eq)]
pub struct NewAgent {
    pub agent: NewAgentData,
}

/// All that a request for a new agent holds: the agent, the private key to sign
/// with, and what the caller wants otherwise than the service is configured.
#[derive(Debug, PartialEq, Eq)]
pub struct AgentQuery {
    pub agent: NewAgent,
    /// The private key as hexadecimal text; none is the empty text.
    pub private_key: Option<String>,
    /// The validator to use in place of the configured one.
    pub url: Option<String>,
    /// The partition to use in place of the configured one.
    pub service_id: Option<String>,
    /// The wait: a number of seconds, or the word that declines to wait.
    pub wait: Option<String>,
}

/// The fields of an action as a caller wrote them: `None` where an entry of the
/// metadata is not a key, an equals sign and a value.
pub open spec fn fields_spec(
    org_id: Seq<char>,
    public_key: Seq<char>,
    roles: Seq<char>,
    metadata: Seq<char>,
) -> Option<ActionFieldsView> {
    match parse_entries(list_spec(metadata)) {
        Some(entries) => Some(
            ActionFieldsView {
                org_id,
                public_key,
                active: true,
                roles: list_spec(roles),
                metadata: entries,
            },
        ),
        None => None,
    }
}

/// The batch list that creates the agent of a query, or how building it
/// fails: with a signing error where the key is unusable or gives no signature
/// that verifies, with a payload error where the metadata is malformed. The
/// wait plays no part in it.
pub open spec fn agent_batch_list(query: &AgentQuery) -> Result<
    BatchListView,
    RestApiResponseErrorView,
> {
    let private_key = text_or_empty(query.private_key);
    match public_key_of(private_key) {
        None => Err(shown_as(GatewayErrorView::SigningError)),
        Some(public_key) => match fields_spec(
            text_or_empty(query.agent.agent.org_id),
            public_key,
            text_or_empty(query.agent.agent.roles),
            text_or_empty(query.agent.agent.metadata),
        ) {
            None => Err(shown_as(GatewayErrorView::PayloadError)),
            Some(fields) => match single_batch_list(
                PIKE_FAMILY_NAME@,
                PIKE_FAMILY_VERSION@,
                payload_spec(ActionView { kind: ActionKind::CreateAgent, fields }),
                seq![PIKE_NAMESPACE@],
                seq![PIKE_NAMESPACE@],
                private_key,
            ) {
                None => Err(shown_as(GatewayErrorView::SigningError)),
                Some(batch_list) => Ok(batch_list),
            },
        },
    }
}

/// What `create_agent` prepares for a query under a configuration, or how it
/// fails. The wait is resolved first: a wait that cannot be read is a bad
/// request whatever else the query holds. Then the batch list is built.
pub open spec fn prepared_agent(query: &AgentQuery, config: &GatewayConfig) -> Result<
    PreparedSubmissionView,
    RestApiResponseErrorView,
> {
    match resolved_wait(text_of(query.wait), config.max_timeout) {
        Err(text) => Err(shown_as(GatewayErrorView::BadRequestError(bad_wait_message(text)))),
        Ok(wait) => match agent_batch_list(query) {
            Err(error) => Err(error),
            Ok(batch_list) => Ok(
                PreparedSubmissionView {
                    batch_list,
                    batch_id: batch_id_spec(batch_list.batches[0].header),
                    url: text_or(query.url, config.endpoint@),
                    service_id: match query.service_id {
                        Some(text) => Some(text@),
                        None => text_of(config.service_id),
                    },
                    wait,
                },
            ),
        },
    }
}

/// The wait of a query decides alone whether the query is refused for its
/// wait. A wait that cannot be read gives the bad request that names it,
/// whatever the key and the metadata are. A wait that is a number, of whatever
/// size, never makes the query fail: where the batch list builds, what is
/// prepared carries the granted wait, the ceiling for every number that is more
/// than 95% of the timeout; where it does not build, the failure is that of the
/// building.
pub proof fn lemma_agent_wait(query: &AgentQuery, config: &GatewayConfig)
    ensures
        resolved_wait(text_of(query.wait), config.max_timeout) matches Err(text)
            ==> prepared_agent(query, config) == Err::<
            PreparedSubmissionView,
            RestApiResponseErrorView,
        >(RestApiResponseErrorView::BadRequest(bad_wait_message(text))),
        resolved_wait(text_of(query.wait), config.max_timeout) matches Ok(wait) ==> (
        match agent_batch_list(query) {
            Ok(batch_list) => prepared_agent(query, config) matches Ok(prepared) && prepared.wait
                == wait && prepared.batch_list == batch_list,
            Err(error) => prepared_agent(query, config) == Err::<
                PreparedSubmissionView,
                RestApiResponseErrorView,
            >(error),
        }),
        query.wait matches Some(text) ==> (parse_seconds(text@) matches Some(seconds) ==> (100
            * seconds > 95 * config.max_timeout ==> resolved_wait(
            text_of(query.wait),
            config.max_timeout,
        ) == Ok::<Option<u32>, Seq<char>>(Some(wait_ceiling(config.max_timeout))))),
{
    if let Some(text) = query.wait {
        if parse_seconds(text@) is Some {
            lemma_numeric_wait_is_granted(text@, config.max_timeout);
        }
    }
}

/// Reads the fields of an action as a caller wrote them.
pub fn read_fields(org_id: String, public_key: String, roles: &str, metadata: &str) -> (res:
    Result<ActionFields, GatewayError>)
    ensures
        match fields_spec(org_id@, public_key@, roles@, metadata@) {
            Some(fields) => res matches Ok(found) && found@ == fields,
            None => res matches Err(GatewayError::PayloadError),
        },
{
    let texts = split_list(metadata);
    match KeyValueEntry::parse_all(&texts) {
        Ok(entries) => Ok(
            ActionFields {
                org_id,
                public_key,
                active: true,
                roles: split_list(roles),
                metadata: entries,
            },
        ),
        Err(_) => Err(GatewayError::PayloadError),
    }
}

/// A list of the one text `text`.
pub fn one_text(text: &str) -> (list: Vec<String>)
    ensures
        list.deep_view() == seq![text@],
{
    let mut list: Vec<String> = Vec::new();
    list.push(text.to_owned());
    list
}

/// Prepares the creation of an agent: resolves the wait, reads what the caller
/// wrote, builds and signs the batch list that creates the agent, and settles
/// the validator to use. Nothing is sent.
pub fn create_agent(query: &AgentQuery, config: &GatewayConfig) -> (res: Result<
    PreparedSubmission,
    RestApiResponseError,
>)
    ensures
        match prepared_agent(query, config) {
            Ok(prepared) => res matches Ok(found) && found@ == prepared,
            Err(error) => res matches Err(found) && found@ == error,
        },
{
    let wait_text = match &query.wait {
        Some(text) => Some(text.as_str()),
        None => None,
    };
    let wait = match resolve_wait(wait_text, config.max_timeout) {
        Ok(wait) => wait,
        Err(error) => {
            return Err(RestApiResponseError::from_gateway_error(error));
        },
    };
    let private_key = owned_or_empty(&query.private_key);
    let signer = match SigningContext::from_hex(private_key.as_str()) {
        Ok(signer) => signer,
        Err(_) => {
            return Err(RestApiResponseError::from_gateway_error(GatewayError::SigningError));
        },
    };
    let org_id = owned_or_empty(&query.agent.agent.org_id);
    let roles = owned_or_empty(&query.agent.agent.roles);
    let metadata = owned_or_empty(&query.agent.agent.metadata);
    let fields = match read_fields(
        org_id,
        signer.public_key_hex(),
        roles.as_str(),
        metadata.as_str(),
    ) {
        Ok(fields) => fields,
        Err(_) => {
            return Err(RestApiResponseError::from_gateway_error(GatewayError::PayloadError));
        },
    };
    let payload = Action::CreateAgent(fields).to_bytes();
    let batch_list = match BatchList::of_payload(
        PIKE_FAMILY_NAME,
        PIKE_FAMILY_VERSION,
        payload,
        one_text(PIKE_NAMESPACE),
        one_text(PIKE_NAMESPACE),
        signer,
    ) {
        Ok(batch_list) => batch_list,
        Err(_) => {
            return Err(RestApiResponseError::from_gateway_error(GatewayError::SigningError));
        },
    };
    let service_id = match &query.service_id {
        Some(text) => Some(text.clone()),
        None => copy_text(&config.service_id),
    };
    match PreparedSubmission::new(
        batch_list,
        owned_or(&query.url, &config.endpoint),
        service_id,
        wait,
    ) {
        Some(prepared) => Ok(prepared),
        None => Err(RestApiResponseError::from_gateway_error(GatewayError::EmptyBatchError)),
    }
}

/// The answer to a request for all agents.
pub fn list_agents() -> (body: String)
    ensures
        body@ == "Hello world! list_agents"@,
{
    "Hello world! list_agents".to_owned()
}

/// The answer to a request for the agent with the given public key.
#[allow(unused_variables)]
pub fn fetch_agent(public_key: &str) -> (body: String)
    ensures
        body@ == "Hello world! fetch_agent"@,
{
    "Hello world! fetch_agent".to_owned()
}

/// The answer to a request to change an agent.
pub fn update_agent() -> (body: String)
    ensures
        body@ == "Hello world! update_agent"@,
{
    "Hello world! update_agent".to_owned()
}

} // verus!
