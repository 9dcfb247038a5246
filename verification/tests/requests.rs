use ledger_gateway::agents::{
    create_agent, fetch_agent, list_agents, one_text, read_fields, update_agent, AgentQuery,
    NewAgent, NewAgentData, PIKE_FAMILY_NAME, PIKE_FAMILY_VERSION, PIKE_NAMESPACE,
};
use ledger_gateway::batch::{BatchHeader, BatchList};
use ledger_gateway::config::{
    batches_url, copy_text, owned_or, owned_or_empty, status_link, status_url, GatewayConfig,
};
use ledger_gateway::digest::sha512_hex;
use ledger_gateway::error::{
    std_error_line, ErrorResponse, GatewayError, ResponseCategory, RestApiResponseError,
    RestApiServerError,
};
use ledger_gateway::payload::{Action, ActionFields, ActionKind, KeyValueEntry};
use ledger_gateway::products::{
    build_batches, create_product, decode_state_data, decoded_state, do_batches, fetch_product,
    list_products, prepare_product, product_error, product_of, read_product, update_product,
    ProductData, PRODUCT_FAMILY_NAME, PRODUCT_FAMILY_VERSION,
};
use ledger_gateway::state::{Product, ProductType};
use ledger_gateway::submit::{
    PreparedSubmission, SubmissionAction, SubmissionEvent, SubmissionOutcome, SubmissionState,
};
use ledger_gateway::status::{same_text, status_text, BatchStatus};
use ledger_gateway::transaction::TransactionHeader;

const KEY1_PRIV: &str = "2f1e7b7a130d7ba9da0068b3bb0ba1d79e7e77110302c9f746c3c2a63fe40088";
const KEY1_PUB: &str = "026a2c795a9776f75464aa3bda3534c3154a6e91b357b1181d3f515110f84b67c5";

fn config() -> GatewayConfig {
    GatewayConfig {
        endpoint: "http://validator:8008".to_string(),
        max_timeout: 300,
        service_id: None,
    }
}

fn query() -> AgentQuery {
    AgentQuery {
        agent: NewAgent {
            agent: NewAgentData {
                org_id: Some("org-1".to_string()),
                roles: Some("admin,auditor".to_string()),
                metadata: Some("color=red,size=9".to_string()),
            },
        },
        private_key: Some(KEY1_PRIV.to_string()),
        url: None,
        service_id: None,
        wait: None,
    }
}

fn product() -> ProductData {
    ProductData {
        private_key: KEY1_PRIV.to_string(),
        product_id: "0123".to_string(),
        product_type: ProductType::Gs1,
        owner: "owner".to_string(),
        org_id: "org-1".to_string(),
        roles: "admin".to_string(),
        metadata: "color=red".to_string(),
    }
}

fn expected_fields() -> ActionFields {
    ActionFields {
        org_id: "org-1".to_string(),
        public_key: KEY1_PUB.to_string(),
        active: true,
        roles: vec!["admin".to_string(), "auditor".to_string()],
        metadata: vec![
            KeyValueEntry { key: "color".to_string(), value: "red".to_string() },
            KeyValueEntry { key: "size".to_string(), value: "9".to_string() },
        ],
    }
}

#[test]
fn gateway_errors_are_shown_in_their_category() {
    let cases = vec![
        (GatewayError::AddressingError, ResponseCategory::BadRequest),
        (GatewayError::SigningError, ResponseCategory::BadRequest),
        (GatewayError::BadRequestError("bad".to_string()), ResponseCategory::BadRequest),
        (GatewayError::PayloadError, ResponseCategory::InternalServerError),
        (GatewayError::EmptyBatchError, ResponseCategory::InternalServerError),
        (
            GatewayError::ValidatorRejectionError("no".to_string()),
            ResponseCategory::ServiceUnavailable,
        ),
        (GatewayError::TimeoutError(BatchStatus::Pending), ResponseCategory::ServiceUnavailable),
        (GatewayError::TransportError("down".to_string()), ResponseCategory::ServiceUnavailable),
    ];
    for (error, category) in cases {
        let shown = RestApiResponseError::from_gateway_error(error);
        assert_eq!(shown.error_response().category, category);
    }
}

#[test]
fn gateway_errors_are_shown_with_their_text() {
    assert_eq!(
        RestApiResponseError::from_gateway_error(GatewayError::BadRequestError("bad".to_string())),
        RestApiResponseError::BadRequest("bad".to_string())
    );
    assert_eq!(
        RestApiResponseError::from_gateway_error(GatewayError::ValidatorRejectionError(
            "body".to_string()
        )),
        RestApiResponseError::SawtoothValidatorResponseError("body".to_string())
    );
    assert_eq!(
        RestApiResponseError::from_gateway_error(GatewayError::TransportError("down".to_string())),
        RestApiResponseError::SawtoothConnectionError("down".to_string())
    );
    assert_eq!(
        RestApiResponseError::from_gateway_error(GatewayError::TimeoutError(BatchStatus::Pending)),
        RestApiResponseError::SawtoothConnectionError(
            "Batch was not decided in time; last status: PENDING".to_string()
        )
    );
    assert_eq!(
        RestApiResponseError::from_gateway_error(GatewayError::PayloadError),
        RestApiResponseError::UserError("Metadata is formated incorrectly".to_string())
    );
    assert_eq!(
        RestApiResponseError::from_gateway_error(GatewayError::SigningError),
        RestApiResponseError::BadRequest("Private key cannot sign".to_string())
    );
    assert_eq!(
        RestApiResponseError::from_gateway_error(GatewayError::EmptyBatchError),
        RestApiResponseError::RequestHandlerError("Batch holds no transaction".to_string())
    );
    assert_eq!(
        RestApiResponseError::from_gateway_error(GatewayError::AddressingError),
        RestApiResponseError::BadRequest(
            "Namespace and key of an address must not be empty".to_string()
        )
    );
}

#[test]
fn status_names() {
    assert_eq!(status_text(BatchStatus::Unknown), "UNKNOWN");
    assert_eq!(status_text(BatchStatus::Pending), "PENDING");
    assert_eq!(status_text(BatchStatus::Invalid), "INVALID");
    assert_eq!(status_text(BatchStatus::Committed), "COMMITTED");
}

#[test]
fn response_of_each_error() {
    let text = || "why".to_string();
    let shown = |category, body: &str| ErrorResponse { category, body: body.to_string() };
    assert_eq!(
        RestApiResponseError::BadRequest(text()).error_response(),
        shown(ResponseCategory::BadRequest, "why")
    );
    assert_eq!(
        RestApiResponseError::SawtoothConnectionError(text()).error_response(),
        shown(ResponseCategory::ServiceUnavailable, "why")
    );
    assert_eq!(
        RestApiResponseError::SawtoothValidatorResponseError(text()).error_response(),
        shown(ResponseCategory::ServiceUnavailable, "why")
    );
    assert_eq!(
        RestApiResponseError::DatabaseError(text()).error_response(),
        shown(ResponseCategory::ServiceUnavailable, "why")
    );
    assert_eq!(
        RestApiResponseError::NotFoundError(text()).error_response(),
        shown(ResponseCategory::NotFound, "why")
    );
    for hidden in [
        RestApiResponseError::RequestHandlerError(text()),
        RestApiResponseError::UserError(text()),
        RestApiResponseError::GridProtoError(text()),
        RestApiResponseError::SabreProtoError(text()),
    ] {
        assert_eq!(
            hidden.error_response(),
            shown(ResponseCategory::InternalServerError, "Internal Server Error")
        );
    }
}

#[test]
fn status_code_of_each_category() {
    assert_eq!(ResponseCategory::BadRequest.status_code(), 400);
    assert_eq!(ResponseCategory::NotFound.status_code(), 404);
    assert_eq!(ResponseCategory::InternalServerError.status_code(), 500);
    assert_eq!(ResponseCategory::ServiceUnavailable.status_code(), 503);
}

#[test]
fn message_of_each_error() {
    let text = || "why".to_string();
    assert_eq!(RestApiResponseError::BadRequest(text()).message(), "Bad Request: why");
    assert_eq!(
        RestApiResponseError::SawtoothConnectionError(text()).message(),
        "Zmq Connection Error: why"
    );
    assert_eq!(
        RestApiResponseError::SawtoothValidatorResponseError(text()).message(),
        "Sawtooth Validator Response Error: why"
    );
    assert_eq!(
        RestApiResponseError::RequestHandlerError(text()).message(),
        "Request Handler Error Error: why"
    );
    assert_eq!(RestApiResponseError::NotFoundError(text()).message(), "Not Found Error: why");
    assert_eq!(RestApiResponseError::DatabaseError(text()).message(), "Database Error: why");
    assert_eq!(RestApiResponseError::UserError(text()).message(), "Error: why");
    assert_eq!(RestApiResponseError::GridProtoError(text()).message(), "Grid Proto Error: why");
    assert_eq!(RestApiResponseError::SabreProtoError(text()).message(), "Sabre Proto Error: why");
}

#[test]
fn server_error_of_start_up() {
    let error = RestApiServerError::StartUpError("no address".to_string());
    assert_eq!(error.message(), "Start-up Error: no address");
    assert!(error.source().is_none());
}

#[test]
fn server_error_of_io_error() {
    let cause = std::io::Error::new(std::io::ErrorKind::AddrInUse, "address in use");
    let error = RestApiServerError::from(cause);
    assert!(matches!(error, RestApiServerError::StdError(_)));
    assert_eq!(error.message(), "Std Error: address in use");
    let disk = RestApiServerError::StdError(std::io::Error::new(std::io::ErrorKind::Other, "disk"));
    assert_eq!(disk.message(), "Std Error: disk");
    assert_eq!(std_error_line("disk"), "Std Error: disk");
    assert_eq!(std_error_line(""), "Std Error: ");
    assert_eq!(error.source().unwrap().kind(), std::io::ErrorKind::AddrInUse);
}

#[test]
fn options_of_text() {
    let some = Some("x".to_string());
    assert_eq!(owned_or_empty(&some), "x");
    assert_eq!(owned_or_empty(&None), "");
    assert_eq!(owned_or(&some, &"y".to_string()), "x");
    assert_eq!(owned_or(&None, &"y".to_string()), "y");
    assert_eq!(copy_text(&some), some);
    assert_eq!(copy_text(&None), None);
    assert_eq!(one_text("a"), vec!["a".to_string()]);
}

#[test]
fn urls_of_the_validator() {
    assert_eq!(batches_url("http://validator:8008"), "http://validator:8008/batches");
    assert_eq!(status_link("http://v:1", "abc"), "http://v:1/batch_statuses?id=abc");
    assert_eq!(status_url("http://v:1", "abc", 7), "http://v:1/batch_statuses?id=abc&wait=7");
    assert_eq!(
        status_url("", "", u32::MAX),
        "/batch_statuses?id=&wait=4294967295"
    );
}

#[test]
fn fields_as_a_caller_writes_them() {
    assert_eq!(
        read_fields("org-1".to_string(), KEY1_PUB.to_string(), "admin,auditor", "color=red,size=9"),
        Ok(expected_fields())
    );
    assert_eq!(
        read_fields(String::new(), String::new(), "", ""),
        Ok(ActionFields {
            org_id: String::new(),
            public_key: String::new(),
            active: true,
            roles: vec![],
            metadata: vec![],
        })
    );
    assert_eq!(
        read_fields(String::new(), String::new(), "", "color"),
        Err(GatewayError::PayloadError)
    );
    assert_eq!(
        read_fields(String::new(), String::new(), "", "a=b,"),
        Err(GatewayError::PayloadError)
    );
}

#[test]
fn create_agent_prepares_a_signed_batch_list() {
    let prepared = create_agent(&query(), &config()).unwrap();
    assert_eq!(prepared.url, "http://validator:8008");
    assert_eq!(prepared.service_id, None);
    assert_eq!(prepared.wait, Some(285));
    assert_eq!(prepared.batch_list.batches.len(), 1);
    let batch = &prepared.batch_list.batches[0];
    assert!(batch.verify());
    assert_eq!(prepared.batch_id, batch.id());
    assert_eq!(prepared.batch_id, sha512_hex(&batch.header));
    assert_eq!(batch.transactions.len(), 1);
    let transaction = &batch.transactions[0];
    assert!(transaction.verify());
    assert_eq!(transaction.payload, Action::CreateAgent(expected_fields()).to_bytes());
    assert_eq!(
        TransactionHeader::from_bytes(&transaction.header).unwrap(),
        TransactionHeader {
            family_name: "pike".to_string(),
            family_version: "0.1".to_string(),
            inputs: vec!["cad11d".to_string()],
            outputs: vec!["cad11d".to_string()],
            payload_sha512: sha512_hex(&transaction.payload),
            signer_public_key: KEY1_PUB.to_string(),
        }
    );
    assert_eq!(
        BatchHeader::from_bytes(&batch.header).unwrap().transaction_ids,
        vec![transaction.id()]
    );
    assert_eq!((PIKE_FAMILY_NAME, PIKE_FAMILY_VERSION, PIKE_NAMESPACE), ("pike", "0.1", "cad11d"));
}

#[test]
fn create_agent_is_repeatable() {
    assert_eq!(create_agent(&query(), &config()), create_agent(&query(), &config()));
}

#[test]
fn create_agent_resolves_wait_url_and_service() {
    let mut asked = query();
    asked.wait = Some("false".to_string());
    asked.url = Some("http://other:1".to_string());
    asked.service_id = Some("part-a".to_string());
    let prepared = create_agent(&asked, &config()).unwrap();
    assert_eq!(prepared.wait, None);
    assert_eq!(prepared.url, "http://other:1");
    assert_eq!(prepared.service_id, Some("part-a".to_string()));
    let mut configured = config();
    configured.service_id = Some("part-b".to_string());
    configured.max_timeout = 20;
    let mut asked = query();
    asked.wait = Some("30".to_string());
    let prepared = create_agent(&asked, &configured).unwrap();
    assert_eq!(prepared.wait, Some(19));
    assert_eq!(prepared.service_id, Some("part-b".to_string()));
    asked.wait = Some("7".to_string());
    assert_eq!(create_agent(&asked, &configured).unwrap().wait, Some(7));
}

#[test]
fn create_agent_refuses_bad_wait_key_and_metadata() {
    let mut bad_wait = query();
    bad_wait.wait = Some("soon".to_string());
    assert_eq!(
        create_agent(&bad_wait, &config()),
        Err(RestApiResponseError::BadRequest(
            "Query wait has invalid value soon. It should set to false or a time in seconds to wait for the commit".to_string()
        ))
    );
    let mut no_key = query();
    no_key.private_key = None;
    assert_eq!(
        create_agent(&no_key, &config()),
        Err(RestApiResponseError::BadRequest("Private key cannot sign".to_string()))
    );
    let mut bad_metadata = query();
    bad_metadata.agent.agent.metadata = Some("color".to_string());
    assert_eq!(
        create_agent(&bad_metadata, &config()),
        Err(RestApiResponseError::UserError("Metadata is formated incorrectly".to_string()))
    );
    bad_metadata.private_key = Some("xyz".to_string());
    assert_eq!(
        create_agent(&bad_metadata, &config()),
        Err(RestApiResponseError::BadRequest("Private key cannot sign".to_string()))
    );
}

#[test]
fn create_agent_refuses_a_bad_wait_whatever_else_is_wrong() {
    let refused = |text: &str| {
        Err(RestApiResponseError::BadRequest(format!(
            "Query wait has invalid value {}. It should set to false or a time in seconds to wait for the commit",
            text
        )))
    };
    for text in ["abc", "", "10s", "-5", "1.5", "False"] {
        let mut asked = query();
        asked.wait = Some(text.to_string());
        assert_eq!(create_agent(&asked, &config()), refused(text));
        asked.private_key = None;
        assert_eq!(create_agent(&asked, &config()), refused(text));
        asked.agent.agent.metadata = Some("no entry".to_string());
        assert_eq!(create_agent(&asked, &config()), refused(text));
    }
}

#[test]
fn create_agent_cuts_every_number_above_the_ceiling() {
    let huge = "7".repeat(300);
    for text in ["286", "300", "4294967295", "4294967296", "+99999999999999999999", huge.as_str()]
    {
        let mut asked = query();
        asked.wait = Some(text.to_string());
        assert_eq!(create_agent(&asked, &config()).unwrap().wait, Some(285));
        asked.private_key = None;
        assert_eq!(
            create_agent(&asked, &config()),
            Err(RestApiResponseError::BadRequest("Private key cannot sign".to_string()))
        );
    }
}

fn finished(action: SubmissionAction) -> Result<SubmissionOutcome, GatewayError> {
    match action {
        SubmissionAction::Finish(result) => result,
        other => panic!("not finished: {:?}", other),
    }
}

#[test]
fn prepared_agent_runs_the_submission_it_asked_for() {
    let mut asked = query();
    asked.wait = Some("10".to_string());
    let prepared = create_agent(&asked, &config()).unwrap();
    assert_eq!(prepared.wire_bytes(), prepared.batch_list.to_bytes());
    let (state, action) = prepared.start();
    assert_eq!(action, SubmissionAction::Send);
    assert_eq!(
        state,
        SubmissionState::Sending { batch_id: prepared.batch_id.clone(), wait: Some(10) }
    );
    let (state, action) = prepared.answered(202, "{\"link\": \"x\"}".to_string());
    assert_eq!(action, SubmissionAction::Poll { remaining: 10 });
    let (state, action) = state.step(SubmissionEvent::of_status("PENDING", 1));
    assert_eq!(action, SubmissionAction::Poll { remaining: 9 });
    let (state, action) = state.step(SubmissionEvent::of_status("COMMITTED", 2));
    assert_eq!(state, SubmissionState::Finished);
    assert_eq!(
        finished(action),
        Ok(SubmissionOutcome {
            batch_id: prepared.batch_id.clone(),
            status: BatchStatus::Committed
        })
    );
    asked.wait = Some("false".to_string());
    let unwaited = create_agent(&asked, &config()).unwrap();
    let (_, action) = unwaited.answered(200, String::new());
    assert_eq!(
        finished(action),
        Ok(SubmissionOutcome { batch_id: unwaited.batch_id.clone(), status: BatchStatus::Pending })
    );
}

#[test]
fn answer_of_the_validator_is_accepted_only_on_success() {
    for code in [200u16, 201, 202, 204, 299] {
        assert_eq!(SubmissionEvent::of_answer(code, "b".to_string()), SubmissionEvent::Accepted);
    }
    for code in [0u16, 100, 199, 300, 302, 400, 404, 429, 500, 503, u16::MAX] {
        assert_eq!(
            SubmissionEvent::of_answer(code, "b".to_string()),
            SubmissionEvent::Rejected("b".to_string())
        );
    }
    assert_eq!(
        SubmissionEvent::of_status("INVALID", 4),
        SubmissionEvent::Observed { status: BatchStatus::Invalid, elapsed: 4 }
    );
    assert_eq!(
        SubmissionEvent::of_status("something else", 4),
        SubmissionEvent::Observed { status: BatchStatus::Unknown, elapsed: 4 }
    );
}

#[test]
fn refused_product_batch_is_a_rejection_with_the_body() {
    for prepared in
        [create_product(&product(), &config()).unwrap(), update_product(&product(), &config()).unwrap()]
    {
        let (state, action) = prepared.answered(400, "{\"error\": \"bad batch\"}".to_string());
        assert_eq!(state, SubmissionState::Finished);
        let error = finished(action).unwrap_err();
        assert_eq!(
            error,
            GatewayError::ValidatorRejectionError("{\"error\": \"bad batch\"}".to_string())
        );
        let shown = RestApiResponseError::from_gateway_error(error);
        assert_eq!(
            shown.error_response(),
            ErrorResponse {
                category: ResponseCategory::ServiceUnavailable,
                body: "{\"error\": \"bad batch\"}".to_string()
            }
        );
        let (state, action) = state.step(SubmissionEvent::Accepted);
        assert_eq!((state, action), (SubmissionState::Finished, SubmissionAction::Halt));
    }
}

#[test]
fn unreachable_validator_on_the_product_path_is_a_transport_error() {
    let prepared = create_product(&product(), &config()).unwrap();
    let (state, action) = prepared.unreachable("connection refused".to_string());
    assert_eq!(state, SubmissionState::Finished);
    let error = finished(action).unwrap_err();
    assert_eq!(error, GatewayError::TransportError("connection refused".to_string()));
    assert_eq!(
        RestApiResponseError::from_gateway_error(error).error_response().category,
        ResponseCategory::ServiceUnavailable
    );
}

#[test]
fn accepted_product_batch_is_pending_at_once() {
    let prepared = create_product(&product(), &config()).unwrap();
    assert_eq!(prepared.wait, None);
    assert_eq!(prepared.url, "http://validator:8008");
    assert_eq!(prepared.service_id, None);
    assert_eq!(prepared.batch_id, prepared.batch_list.batches[0].id());
    assert_eq!(Ok(prepared.wire_bytes()), do_batches(&product(), ActionKind::CreateProduct));
    let (state, action) = prepared.answered(202, String::new());
    assert_eq!(state, SubmissionState::Finished);
    assert_eq!(
        finished(action),
        Ok(SubmissionOutcome { batch_id: prepared.batch_id.clone(), status: BatchStatus::Pending })
    );
}

#[test]
fn prepared_submission_needs_a_batch() {
    assert_eq!(
        PreparedSubmission::new(BatchList { batches: vec![] }, String::new(), None, None),
        None
    );
    let list = build_batches(&product(), ActionKind::CreateProduct).unwrap();
    let id = list.batches[0].id();
    let prepared =
        PreparedSubmission::new(list, "u".to_string(), Some("s".to_string()), Some(3)).unwrap();
    assert_eq!(prepared.batch_id, id);
    assert_eq!((prepared.url.as_str(), prepared.wait), ("u", Some(3)));
    assert_eq!(prepared.service_id, Some("s".to_string()));
}

#[test]
fn create_agent_takes_an_agent_without_fields() {
    let mut bare = query();
    bare.agent = NewAgent { agent: NewAgentData { org_id: None, roles: None, metadata: None } };
    let prepared = create_agent(&bare, &config()).unwrap();
    let fields = ActionFields {
        org_id: String::new(),
        public_key: KEY1_PUB.to_string(),
        active: true,
        roles: vec![],
        metadata: vec![],
    };
    assert_eq!(
        prepared.batch_list.batches[0].transactions[0].payload,
        Action::CreateAgent(fields).to_bytes()
    );
}

#[test]
fn agent_answers() {
    assert_eq!(list_agents(), "Hello world! list_agents");
    assert_eq!(fetch_agent("02ab"), "Hello world! fetch_agent");
    assert_eq!(update_agent(), "Hello world! update_agent");
}

fn product_fields() -> ActionFields {
    ActionFields {
        org_id: "org-1".to_string(),
        public_key: KEY1_PUB.to_string(),
        active: true,
        roles: vec!["admin".to_string()],
        metadata: vec![KeyValueEntry { key: "color".to_string(), value: "red".to_string() }],
    }
}

#[test]
fn do_batches_writes_a_signed_batch_list() {
    let bytes = do_batches(&product(), ActionKind::CreateProduct).unwrap();
    let list = BatchList::from_bytes(&bytes).unwrap();
    assert_eq!(list.to_bytes(), bytes);
    assert_eq!(list.batches.len(), 1);
    assert!(list.batches[0].verify());
    let transaction = &list.batches[0].transactions[0];
    assert!(transaction.verify());
    assert_eq!(transaction.payload, Action::CreateProduct(product_fields()).to_bytes());
    let header = TransactionHeader::from_bytes(&transaction.header).unwrap();
    assert_eq!(header.family_name, "grid_product");
    assert_eq!(header.family_version, "1.0");
    assert_eq!(header.inputs, vec!["d39198".to_string()]);
    assert_eq!(header.outputs, vec!["d39198".to_string()]);
    assert_eq!(header.signer_public_key, KEY1_PUB);
    assert_eq!((PRODUCT_FAMILY_NAME, PRODUCT_FAMILY_VERSION), ("grid_product", "1.0"));
}

#[test]
fn do_batches_plans_a_change_for_every_other_kind() {
    for plan in [ActionKind::UpdateProduct, ActionKind::CreateAgent, ActionKind::UpdateAgent] {
        let bytes = do_batches(&product(), plan).unwrap();
        let list = BatchList::from_bytes(&bytes).unwrap();
        assert_eq!(
            list.batches[0].transactions[0].payload,
            Action::UpdateProduct(product_fields()).to_bytes()
        );
    }
    assert_eq!(
        create_product(&product(), &config()).map(|prepared| prepared.wire_bytes()),
        do_batches(&product(), ActionKind::CreateProduct)
    );
    assert_eq!(
        update_product(&product(), &config()).map(|prepared| prepared.wire_bytes()),
        do_batches(&product(), ActionKind::UpdateProduct)
    );
    assert_eq!(
        prepare_product(&product(), ActionKind::CreateAgent, &config()),
        update_product(&product(), &config())
    );
    assert_ne!(create_product(&product(), &config()), update_product(&product(), &config()));
}

#[test]
fn do_batches_refuses_bad_key_and_metadata() {
    let mut bad_key = product();
    bad_key.private_key = "00".to_string();
    assert_eq!(
        do_batches(&bad_key, ActionKind::CreateProduct),
        Err(RestApiResponseError::BadRequest("Private key cannot sign".to_string()))
    );
    assert_eq!(
        create_product(&bad_key, &config()),
        Err(RestApiResponseError::UserError(
            "Cannot deserialize organization: Bad Request: Private key cannot sign".to_string()
        ))
    );
    let mut bad_metadata = product();
    bad_metadata.metadata = "a=b=c".to_string();
    assert_eq!(
        do_batches(&bad_metadata, ActionKind::UpdateProduct),
        Err(RestApiResponseError::UserError("Metadata is formated incorrectly".to_string()))
    );
    assert_eq!(
        update_product(&bad_metadata, &config()),
        Err(RestApiResponseError::UserError(
            "Cannot deserialize organization: Error: Metadata is formated incorrectly".to_string()
        ))
    );
    assert_eq!(
        product_error(&RestApiResponseError::NotFoundError("x".to_string())),
        RestApiResponseError::UserError(
            "Cannot deserialize organization: Not Found Error: x".to_string()
        )
    );
}

#[test]
fn product_state_urls() {
    assert_eq!(list_products(&config()), "http://validator:8008/state?address=d3919801");
    assert_eq!(
        fetch_product(&config(), "0123"),
        Ok("http://validator:8008/state/d3919826e5556d35bebab660c17eaf2ffebb823ddfb4b009a6e1f687e95fdf40ee6370".to_string())
    );
    assert_eq!(
        fetch_product(&config(), ""),
        Err(RestApiResponseError::BadRequest(
            "Namespace and key of an address must not be empty".to_string()
        ))
    );
}

#[test]
fn state_data_is_base64() {
    assert_eq!(decode_state_data("aGVsbG8gd29ybGQ="), Ok(b"hello world".to_vec()));
    assert_eq!(decode_state_data(""), Ok(vec![]));
    assert_eq!(decode_state_data("AAEC/w=="), Ok(vec![0, 1, 2, 255]));
    let malformed = RestApiResponseError::SawtoothValidatorResponseError(
        "State entry is not well-formed base64".to_string(),
    );
    assert_eq!(decode_state_data("not base64!"), Err(malformed));
    assert_eq!(decoded_state(Some(vec![1])), Ok(vec![1]));
    assert!(decoded_state(None).is_err());
}

#[test]
fn status_is_read_from_its_name() {
    for status in
        [BatchStatus::Unknown, BatchStatus::Pending, BatchStatus::Invalid, BatchStatus::Committed]
    {
        assert_eq!(BatchStatus::from_name(status_text(status)), status);
    }
    assert_eq!(BatchStatus::from_name("committed"), BatchStatus::Unknown);
    assert_eq!(BatchStatus::from_name(""), BatchStatus::Unknown);
    assert!(same_text("a", "a"));
    assert!(!same_text("a", "A"));
}

fn stored_product() -> Product {
    Product {
        product_id: "0123".to_string(),
        product_type: ProductType::Gs1,
        owner: "org-1".to_string(),
        properties: vec![vec![1, 2, 3], vec![], vec![0x22]],
    }
}

#[test]
fn state_entry_is_read_as_a_product() {
    // base64 of 0a 04 "0123" 10 01 1a 05 "org-1" 22 03 01 02 03 22 00 22 01 22
    let data = "CgQwMTIzEAEaBW9yZy0xIgMBAgMiACIBIg==";
    assert_eq!(decode_state_data(data), Ok(stored_product().to_bytes()));
    assert_eq!(read_product(data), Ok(stored_product()));
    assert_eq!(product_of(Some(stored_product().to_bytes())), Ok(stored_product()));
}

#[test]
fn state_entry_that_is_no_product_is_refused() {
    let malformed = || {
        RestApiResponseError::SawtoothValidatorResponseError(
            "State entry is not well-formed base64".to_string(),
        )
    };
    let no_product = || {
        RestApiResponseError::SawtoothValidatorResponseError(
            "State entry is no product".to_string(),
        )
    };
    assert_eq!(read_product("not base64!"), Err(malformed()));
    assert_eq!(product_of(None), Err(malformed()));
    // base64 of "hello world", of nothing, and of a product with a kind that is none.
    for data in ["aGVsbG8gd29ybGQ=", "", "CgQwMTIzEAIaBW9yZy0x"] {
        assert!(decode_state_data(data).is_ok());
        assert_eq!(read_product(data), Err(no_product()));
    }
    let mut trailing = stored_product().to_bytes();
    trailing.push(0);
    assert_eq!(product_of(Some(trailing)), Err(no_product()));
    assert_eq!(no_product().error_response().category, ResponseCategory::ServiceUnavailable);
}
