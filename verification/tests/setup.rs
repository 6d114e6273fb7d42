use cloudwatch_logging::prelude::{
    describe_log_streams_query, DescribeLogStreamsReply, LogStreamInfo,
};
use cloudwatch_logging::region::{region_name, region_or_invalid, resolve_region, FALLBACK_REGION};
use cloudwatch_logging::{LoggerError, LoggerHandle};
use rusoto_core::Region;
use std::str::FromStr;

#[test]
fn region_defaults_to_fallback() {
    assert_eq!(FALLBACK_REGION, "us-east-1");
    assert_eq!(region_name(None), "us-east-1");
    assert_eq!(region_name(Some("eu-west-1".to_string())), "eu-west-1");
    let region = resolve_region(None).ok().expect("fallback region resolves");
    assert_eq!(region, Region::UsEast1);
}

#[test]
fn region_from_environment() {
    let region = resolve_region(Some("EU-WEST-2".to_string())).ok().expect("known region");
    assert_eq!(region, Region::EuWest2);
    assert!(matches!(resolve_region(Some("moon-1".to_string())), Err(LoggerError::InvalidRegion)));
    assert!(matches!(region_or_invalid(Region::from_str("nowhere")), Err(LoggerError::InvalidRegion)));
    assert_eq!(region_or_invalid(Region::from_str("sa-east-1")).ok(), Some(Region::SaEast1));
}

#[test]
fn describe_query() {
    let q = describe_log_streams_query("test-group".to_string(), "test-stream".to_string());
    assert_eq!(q.log_group_name, "test-group");
    assert_eq!(q.log_stream_name_prefix, Some("test-stream".to_string()));
}

fn reply(streams: Option<Vec<(Option<&str>, Option<&str>)>>) -> DescribeLogStreamsReply {
    DescribeLogStreamsReply {
        log_streams: streams.map(|ss| {
            ss.into_iter()
                .map(|(name, token)| LogStreamInfo {
                    log_stream_name: name.map(|s| s.to_string()),
                    upload_sequence_token: token.map(|s| s.to_string()),
                })
                .collect()
        }),
    }
}

#[test]
fn sequence_token_from_reply() {
    let token = |r| LoggerHandle::get_sequence_token("test-stream", r);
    assert_eq!(
        token(Ok(reply(Some(vec![(Some("test-stream"), Some("abc")), (Some("test-stream"), Some("def"))])))).ok(),
        Some(Some("abc".to_string()))
    );
    assert_eq!(
        token(Ok(reply(Some(vec![(Some("test-stream"), None)])))).ok(),
        Some(None)
    );
    // a longer name that shares the prefix is another stream
    assert_eq!(
        token(Ok(reply(Some(vec![
            (Some("test-stream-2"), Some("other")),
            (None, Some("nameless")),
            (Some("test-stream"), Some("mine")),
        ])))).ok(),
        Some(Some("mine".to_string()))
    );
    assert!(matches!(
        token(Ok(reply(Some(vec![(Some("test-stream-2"), Some("other"))])))),
        Err(LoggerError::InvalidLogStream)
    ));
    assert!(matches!(token(Ok(reply(Some(vec![])))), Err(LoggerError::InvalidLogStream)));
    assert!(matches!(token(Ok(reply(None))), Err(LoggerError::InvalidLogStream)));
    match token(Err("ResourceNotFound".to_string())) {
        Err(LoggerError::DescribeLogStreamError(text)) => assert_eq!(text, "ResourceNotFound"),
        _ => panic!("expected a DescribeLogStreamError"),
    }
}

#[test]
fn names_from_environment() {
    match LoggerHandle::log_names_from_env(Some("g".to_string()), Some("s".to_string())) {
        Ok((g, s)) => {
            assert_eq!(g, "g");
            assert_eq!(s, "s");
        },
        Err(_) => panic!("both names are set"),
    }
    assert!(matches!(
        LoggerHandle::log_names_from_env(None, None),
        Err(LoggerError::InvalidLogGroup)
    ));
    assert!(matches!(
        LoggerHandle::log_names_from_env(Some("g".to_string()), None),
        Err(LoggerError::InvalidLogStream)
    ));
}
