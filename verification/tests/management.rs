use recoverable_messaging::error::{
    AmqpError, AmqpErrorCondition, Error, ErrorCause, ErrorKind,
};
use recoverable_messaging::management::{AmqpValue, RecoverableManagementClient};
use recoverable_messaging::retry::RetryOptions;

#[test]
fn should_retry_management_response() {
    {
        let error: Error =
            AmqpError::new_management_error(429, Some("Too many requests!".into())).into();
        assert!(RecoverableManagementClient::should_retry_management_response(&error));
    }
    {
        let error: Error = AmqpError::new_management_error(101, Some("Switcheroo".into())).into();
        assert!(!RecoverableManagementClient::should_retry_management_response(&error));
    }
    // Verify that an explicitly boxed error is handled correctly
    {
        let error = Error::new(
            ErrorKind::Amqp,
            ErrorCause::Boxed(Box::new(ErrorCause::Amqp(AmqpError::new_management_error(
                429,
                Some("Too many requests!".into()),
            )))),
        );
        assert!(RecoverableManagementClient::should_retry_management_response(&error));
    }
    {
        let error: Error = AmqpError::new_management_error(502, Some("Bad Gateway".into())).into();
        assert!(RecoverableManagementClient::should_retry_management_response(&error));
    }
    {
        let error: Error =
            AmqpError::new_management_error(408, Some("Request Timeout".into())).into();
        assert!(RecoverableManagementClient::should_retry_management_response(&error));
    }
    {
        let error: Error =
            AmqpError::new_management_error(408, Some("Request Timeout".into())).into();
        assert!(RecoverableManagementClient::should_retry_management_response(&error));
    }
    {
        let error: Error =
            AmqpError::new_management_error(500, Some("Internal Server Error".into())).into();
        assert!(RecoverableManagementClient::should_retry_management_response(&error));
    }
    {
        let error = Error::message(ErrorKind::Other, "invalid management response");
        assert!(!RecoverableManagementClient::should_retry_management_response(&error));
    }
    {
        let error: Error = AmqpError::new_described_error(
            AmqpErrorCondition::ResourceLimitExceeded,
            Some("Resource Limit Exceeded".into()),
        )
        .into();
        assert!(RecoverableManagementClient::should_retry_management_response(&error));
    }
    {
        let error: Error = AmqpError::new_described_error(
            AmqpErrorCondition::IllegalState,
            Some("Illegal State".into()),
        )
        .into();
        assert!(!RecoverableManagementClient::should_retry_management_response(&error));
    }
}

#[test]
fn management_call_retries_failed_attach_transparently() {
    // An attach that fails once with a service-unavailable condition and
    // succeeds on the second attempt: the call comes back successful with
    // exactly one retry, and the caller never sees the first failure.
    let mut client = RecoverableManagementClient::new(RetryOptions::default());
    let outcomes: Vec<Result<Vec<(String, AmqpValue)>, Error>> = vec![
        Err(AmqpError::new_management_error(503, Some("Service Unavailable".into())).into()),
        Ok(Vec::new()),
    ];
    let scales = vec![100u16, 100, 100];
    let out = client.call("op", Vec::new(), outcomes, &scales);
    assert!(out.result.is_ok());
    assert_eq!(out.result.unwrap().len(), 0);
    assert_eq!(out.delays.len(), 1);
    // The link is attached against the freshly opened connection.
    assert!(client.guard.is_open());
    assert_eq!(client.link_generation, Some(client.guard.current_generation()));
}

#[test]
fn error_without_extractable_cause_fails_closed() {
    // A transport-kind error with no cause, or whose cause is only a
    // message, is never retried blindly.
    let bare = Error::bare(ErrorKind::Amqp);
    assert!(!RecoverableManagementClient::should_retry_management_response(&bare));
    let message_only = Error::message(ErrorKind::Amqp, "something went wrong");
    assert!(!RecoverableManagementClient::should_retry_management_response(&message_only));
}

#[test]
fn management_call_gives_up_on_fatal_failure() {
    let mut client = RecoverableManagementClient::new(RetryOptions::default());
    let outcomes: Vec<Result<Vec<(String, AmqpValue)>, Error>> = vec![Err(
        AmqpError::new_described_error(AmqpErrorCondition::IllegalState, Some("bad".into()))
            .into(),
    )];
    let scales = vec![100u16; 4];
    let out = client.call("op", Vec::new(), outcomes, &scales);
    assert!(out.result.is_err());
    assert_eq!(out.delays.len(), 0);
}

#[test]
fn management_call_reconnects_when_connection_is_dead() {
    // A failure that says the connection itself died forces a fresh
    // connection: the retry succeeds over a new generation.
    let mut client = RecoverableManagementClient::new(RetryOptions::default());
    let first: Vec<Result<Vec<(String, AmqpValue)>, Error>> = vec![Ok(Vec::new())];
    let scales = vec![100u16; 4];
    let out = client.call("op", Vec::new(), first, &scales);
    assert!(out.result.is_ok());
    let first_generation = client.guard.current_generation();

    let second: Vec<Result<Vec<(String, AmqpValue)>, Error>> = vec![
        Err(AmqpError::new_described_error(
            AmqpErrorCondition::LinkStolen,
            Some("stolen".into()),
        )
        .into()),
        Ok(Vec::new()),
    ];
    let out = client.call("op", Vec::new(), second, &scales);
    assert!(out.result.is_ok());
    assert_eq!(out.delays.len(), 1);
    assert_eq!(client.guard.current_generation(), first_generation + 1);
}

#[test]
fn management_call_on_closed_client_fails() {
    let mut client = RecoverableManagementClient::new(RetryOptions::default());
    client.guard.close();
    let outcomes: Vec<Result<Vec<(String, AmqpValue)>, Error>> = vec![Ok(Vec::new())];
    let scales = vec![100u16; 4];
    let out = client.call("op", Vec::new(), outcomes, &scales);
    assert!(out.result.is_err());
    assert_eq!(out.result.unwrap_err().kind(), ErrorKind::Other);
    assert_eq!(out.delays.len(), 0);
}

#[test]
fn create_management_client_retries_and_binds_link() {
    let mut client = RecoverableManagementClient::new(RetryOptions::default());
    let attempts: Vec<Result<(), Error>> = vec![
        Err(AmqpError::new_management_error(503, Some("Service Unavailable".into())).into()),
        Ok(()),
    ];
    let scales = vec![100u16; 4];
    let run = client.create_management_client(attempts, &scales);
    assert!(run.result.is_ok());
    assert_eq!(run.delays.len(), 1);
    assert!(client.guard.is_open());
    assert_eq!(client.link_generation, Some(client.guard.current_generation()));
    // Establishment completed exactly one creation.
    assert_eq!(client.guard.current_generation(), 1);

    // A failed re-establishment invalidates but keeps the generation.
    let attempts: Vec<Result<(), Error>> = vec![Err(AmqpError::new_described_error(
        AmqpErrorCondition::IllegalState,
        Some("bad".into()),
    )
    .into())];
    let run = client.create_management_client(attempts, &scales);
    assert!(run.result.is_err());
    assert_eq!(client.guard.current_generation(), 1);
    assert_eq!(client.link_generation, None);
}

#[test]
fn create_management_client_on_closed_client_fails() {
    // A closed client never silently reopens: establishment fails with
    // the closed error, without any creation attempt.
    let mut client = RecoverableManagementClient::new(RetryOptions::default());
    client.guard.close();
    let generation_before = client.guard.current_generation();
    let attempts: Vec<Result<(), Error>> = vec![Ok(())];
    let scales = vec![100u16; 4];
    let run = client.create_management_client(attempts, &scales);
    assert!(run.result.is_err());
    assert_eq!(run.result.unwrap_err().kind(), ErrorKind::Other);
    assert_eq!(run.delays.len(), 0);
    assert!(!client.guard.is_open());
    assert_eq!(client.guard.current_generation(), generation_before);
}

#[test]
fn direct_attach_fails_loudly() {
    let client = RecoverableManagementClient::new(RetryOptions::default());
    let result = client.attach();
    assert!(result.is_err());
    assert_eq!(result.unwrap_err().kind(), ErrorKind::UnsupportedOperation);
}

#[test]
fn direct_detach_fails_loudly() {
    let client = RecoverableManagementClient::new(RetryOptions::default());
    let result = client.detach();
    assert!(result.is_err());
    assert_eq!(result.unwrap_err().kind(), ErrorKind::UnsupportedOperation);
}
