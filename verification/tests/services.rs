use cluster_context::{
    AccessError, ClusterContext, DecodeFailure, NamespaceFilter, Resource, ResourceKind,
    ServiceObject,
};

fn two_services() -> Vec<u8> {
    br#"{
        "apiVersion": "v1",
        "kind": "ServiceList",
        "metadata": {},
        "items": [
            {"metadata": {"name": "a", "namespace": "ns1"}},
            {"metadata": {"name": "b", "namespace": "ns2"}}
        ]
    }"#
        .to_vec()
}

fn names_of(items: &[Resource<ServiceObject>]) -> Vec<(Option<&str>, Option<&str>)> {
    items.iter().map(|r| (r.name.as_deref(), r.namespace.as_deref())).collect()
}

fn only(namespace: &str) -> NamespaceFilter {
    NamespaceFilter::Namespace(namespace.to_string())
}

#[test]
fn services_of_one_namespace_are_listed() {
    let listed = ClusterContext::services(Ok(two_services()), only("ns1")).unwrap();
    assert_eq!(names_of(&listed), vec![(Some("a"), Some("ns1"))]);
}

#[test]
fn services_of_all_namespaces_keep_the_host_order() {
    let listed =
        ClusterContext::services(Ok(two_services()), NamespaceFilter::AllNamespaces).unwrap();
    assert_eq!(names_of(&listed), vec![(Some("a"), Some("ns1")), (Some("b"), Some("ns2"))]);
}

#[test]
fn service_is_found_by_name_in_all_namespaces() {
    let found = ClusterContext::service(Ok(two_services()), NamespaceFilter::AllNamespaces, "b")
        .unwrap()
        .unwrap();
    assert_eq!(found.name.as_deref(), Some("b"));
    assert_eq!(found.namespace.as_deref(), Some("ns2"));
}

#[test]
fn service_of_another_namespace_is_not_found() {
    let found = ClusterContext::service(Ok(two_services()), only("ns2"), "a").unwrap();
    assert!(found.is_none());
}

#[test]
fn service_without_namespace_is_dropped_by_a_named_filter() {
    let body = br#"{"metadata": {}, "items": [
        {"metadata": {"name": "bare"}},
        {"metadata": {"name": "a", "namespace": "ns1"}}
    ]}"#
        .to_vec();
    let listed = ClusterContext::services(Ok(body.clone()), only("ns1")).unwrap();
    assert_eq!(names_of(&listed), vec![(Some("a"), Some("ns1"))]);
    let found = ClusterContext::service(Ok(body), only("ns1"), "bare").unwrap();
    assert!(found.is_none());
}

#[test]
fn service_without_namespace_passes_all_namespaces() {
    let body = br#"{"metadata": {}, "items": [{"metadata": {"name": "bare"}}]}"#.to_vec();
    let listed = ClusterContext::services(Ok(body), NamespaceFilter::AllNamespaces).unwrap();
    assert_eq!(names_of(&listed), vec![(Some("bare"), None)]);
}

#[test]
fn namespace_match_is_exact() {
    let body = br#"{"metadata": {}, "items": [
        {"metadata": {"name": "upper", "namespace": "NS1"}},
        {"metadata": {"name": "longer", "namespace": "ns10"}},
        {"metadata": {"name": "padded", "namespace": " ns1"}},
        {"metadata": {"name": "empty", "namespace": ""}},
        {"metadata": {"name": "exact", "namespace": "ns1"}}
    ]}"#
        .to_vec();
    let listed = ClusterContext::services(Ok(body.clone()), only("ns1")).unwrap();
    assert_eq!(names_of(&listed), vec![(Some("exact"), Some("ns1"))]);
    let starred = ClusterContext::services(Ok(body.clone()), only("*")).unwrap();
    assert!(starred.is_empty());
    let blank = ClusterContext::services(Ok(body), only("")).unwrap();
    assert_eq!(names_of(&blank), vec![(Some("empty"), Some(""))]);
}

#[test]
fn empty_list_is_not_an_error() {
    let body = br#"{"metadata": {}, "items": []}"#.to_vec();
    let listed = ClusterContext::services(Ok(body.clone()), NamespaceFilter::AllNamespaces);
    assert!(listed.unwrap().is_empty());
    let found = ClusterContext::service(Ok(body), NamespaceFilter::AllNamespaces, "a");
    assert!(found.unwrap().is_none());
}

#[test]
fn filter_that_matches_nothing_gives_an_empty_list() {
    let listed = ClusterContext::services(Ok(two_services()), only("ns3")).unwrap();
    assert!(listed.is_empty());
}

#[test]
fn first_service_of_a_shared_name_wins() {
    let body = br#"{"metadata": {}, "items": [
        {"metadata": {"name": "other", "namespace": "ns1"}},
        {"metadata": {"name": "twin", "namespace": "ns1"}, "spec": {"clusterIP": "10.0.0.1"}},
        {"metadata": {"name": "twin", "namespace": "ns2"}, "spec": {"clusterIP": "10.0.0.2"}}
    ]}"#
        .to_vec();
    let found = ClusterContext::service(Ok(body.clone()), NamespaceFilter::AllNamespaces, "twin")
        .unwrap()
        .unwrap();
    assert_eq!(found.namespace.as_deref(), Some("ns1"));
    assert_eq!(found.object.spec.unwrap().cluster_ip.as_deref(), Some("10.0.0.1"));
    let found = ClusterContext::service(Ok(body), only("ns2"), "twin").unwrap().unwrap();
    assert_eq!(found.namespace.as_deref(), Some("ns2"));
    assert_eq!(found.object.spec.unwrap().cluster_ip.as_deref(), Some("10.0.0.2"));
}

#[test]
fn service_without_name_is_listed_but_never_found() {
    let body = br#"{"metadata": {}, "items": [{"metadata": {"namespace": "ns1"}}]}"#.to_vec();
    let listed = ClusterContext::services(Ok(body.clone()), only("ns1")).unwrap();
    assert_eq!(names_of(&listed), vec![(None, Some("ns1"))]);
    let found = ClusterContext::service(Ok(body), only("ns1"), "").unwrap();
    assert!(found.is_none());
}

#[test]
fn decoded_service_is_carried_whole() {
    let body = br#"{"metadata": {}, "items": [{
        "metadata": {"name": "web", "namespace": "shop", "labels": {"tier": "front"}},
        "spec": {"type": "ClusterIP", "ports": [{"port": 80}]}
    }]}"#
        .to_vec();
    let listed = ClusterContext::services(Ok(body), only("shop")).unwrap();
    assert_eq!(listed.len(), 1);
    let service = &listed[0];
    assert_eq!(service.name, service.object.metadata.name);
    assert_eq!(service.namespace, service.object.metadata.namespace);
    assert_eq!(service.object.metadata.labels.as_ref().unwrap()["tier"], "front");
    let spec = service.object.spec.as_ref().unwrap();
    assert_eq!(spec.type_.as_deref(), Some("ClusterIP"));
    assert_eq!(spec.ports.as_ref().unwrap()[0].port, 80);
}

#[test]
fn every_listed_service_satisfies_the_filter() {
    let body = br#"{"metadata": {}, "items": [
        {"metadata": {"name": "a", "namespace": "ns1"}},
        {"metadata": {"name": "b"}},
        {"metadata": {"name": "c", "namespace": "ns2"}},
        {"metadata": {"name": "d", "namespace": "ns1"}}
    ]}"#
        .to_vec();
    let listed = ClusterContext::services(Ok(body), only("ns1")).unwrap();
    assert_eq!(listed.len(), 2);
    assert!(listed.iter().all(|r| r.namespace.as_deref() == Some("ns1")));
    assert_eq!(names_of(&listed), vec![(Some("a"), Some("ns1")), (Some("d"), Some("ns1"))]);
}

#[test]
fn found_service_is_the_first_listed_of_that_name() {
    let body = br#"{"metadata": {}, "items": [
        {"metadata": {"name": "x", "namespace": "ns2"}},
        {"metadata": {"name": "x", "namespace": "ns1"}},
        {"metadata": {"name": "y", "namespace": "ns1"}}
    ]}"#
        .to_vec();
    for filter in ["ns1", "ns2"] {
        let listed = ClusterContext::services(Ok(body.clone()), only(filter)).unwrap();
        for name in ["x", "y", "z"] {
            let found = ClusterContext::service(Ok(body.clone()), only(filter), name).unwrap();
            let first = listed.iter().find(|r| r.name.as_deref() == Some(name));
            match (found, first) {
                (Some(found), Some(first)) => {
                    assert_eq!(found.name, first.name);
                    assert_eq!(found.namespace, first.namespace);
                    assert_eq!(found.object, first.object);
                }
                (None, None) => {}
                _ => panic!("lookup and listing disagree"),
            }
        }
    }
}

#[test]
fn malformed_service_body_is_a_decode_error() {
    for body in ["", "not json", "{", "[]", "{\"items\": []", "{\"metadata\": {}}", "{\"items\": 3, \"metadata\": {}}"] {
        let listed =
            ClusterContext::services(Ok(body.as_bytes().to_vec()), NamespaceFilter::AllNamespaces);
        match listed {
            Err(AccessError::Decode { kind, failure: DecodeFailure::Malformed(_) }) => {
                assert_eq!(kind, ResourceKind::Service)
            }
            other => panic!("expected a decode error for {:?}, got {:?}", body, other),
        }
        let found = ClusterContext::service(
            Ok(body.as_bytes().to_vec()),
            NamespaceFilter::AllNamespaces,
            "a",
        );
        assert!(matches!(
            found,
            Err(AccessError::Decode { kind: ResourceKind::Service, failure: DecodeFailure::Malformed(_) })
        ));
    }
}

#[test]
fn one_malformed_item_fails_the_whole_listing() {
    let body = br#"{"metadata": {}, "items": [
        {"metadata": {"name": "a", "namespace": "ns1"}},
        {"metadata": {"name": 7, "namespace": "ns1"}}
    ]}"#
        .to_vec();
    let listed = ClusterContext::services(Ok(body), only("ns1"));
    assert!(matches!(listed, Err(AccessError::Decode { .. })));
}

#[test]
fn list_of_another_kind_is_a_decode_error() {
    let body = br#"{"apiVersion": "v1", "kind": "NamespaceList", "metadata": {}, "items": []}"#;
    let listed = ClusterContext::services(Ok(body.to_vec()), NamespaceFilter::AllNamespaces);
    assert!(matches!(
        listed,
        Err(AccessError::Decode { kind: ResourceKind::Service, failure: DecodeFailure::Malformed(_) })
    ));
}

#[test]
fn decode_error_keeps_the_decoder_message() {
    let body = "{\"metadata\": {}}";
    let expected = serde_json::from_str::<k8s_openapi::List<ServiceObject>>(body)
        .unwrap_err()
        .to_string();
    let error = ClusterContext::services(Ok(body.as_bytes().to_vec()), only("ns1")).unwrap_err();
    match &error {
        AccessError::Decode { failure: DecodeFailure::Malformed(message), .. } => {
            assert_eq!(*message, expected)
        }
        other => panic!("expected a decode error, got {:?}", other),
    }
    assert_eq!(error.message(), format!("failed to unmarshal service list: {}", expected));
    assert_eq!(
        error.message(),
        "failed to unmarshal service list: missing field `items` at line 1 column 16"
    );
}

#[test]
fn body_that_is_not_utf8_is_a_decode_error() {
    let mut body = two_services();
    body.push(0xff);
    let error = ClusterContext::services(Ok(body.clone()), only("ns1")).unwrap_err();
    assert!(matches!(
        error,
        AccessError::Decode { kind: ResourceKind::Service, failure: DecodeFailure::InvalidUtf8 }
    ));
    assert_eq!(
        error.message(),
        "failed to unmarshal service list: the response is not valid UTF-8"
    );
    let found = ClusterContext::service(Ok(body), only("ns1"), "a");
    assert!(matches!(
        found,
        Err(AccessError::Decode { kind: ResourceKind::Service, failure: DecodeFailure::InvalidUtf8 })
    ));
}

#[test]
fn overlong_and_surrogate_bytes_are_not_utf8() {
    for bad in [vec![0xc0u8, 0x80], vec![0xed, 0xa0, 0x80], vec![0xf4, 0x90, 0x80, 0x80], vec![0xe2, 0x82]] {
        let listed = ClusterContext::services(Ok(bad), NamespaceFilter::AllNamespaces);
        assert!(matches!(
            listed,
            Err(AccessError::Decode { failure: DecodeFailure::InvalidUtf8, .. })
        ));
    }
}

#[test]
fn names_beyond_ascii_are_decoded() {
    let body = "{\"metadata\": {}, \"items\": [{\"metadata\": {\"name\": \"caf\u{e9}\", \"namespace\": \"\u{65e5}\u{672c}\"}}]}";
    let listed =
        ClusterContext::services(Ok(body.as_bytes().to_vec()), only("\u{65e5}\u{672c}")).unwrap();
    assert_eq!(names_of(&listed), vec![(Some("caf\u{e9}"), Some("\u{65e5}\u{672c}"))]);
    let found =
        ClusterContext::service(Ok(body.as_bytes().to_vec()), NamespaceFilter::AllNamespaces, "caf\u{e9}");
    assert!(found.unwrap().is_some());
}

#[test]
fn failed_call_is_a_bridge_error() {
    let error =
        ClusterContext::services(Err("host is gone".to_string()), only("ns1")).unwrap_err();
    match &error {
        AccessError::Bridge { kind, reason } => {
            assert_eq!(*kind, ResourceKind::Service);
            assert_eq!(reason, "host is gone");
        }
        other => panic!("expected a bridge error, got {:?}", other),
    }
    assert_eq!(error.kind(), ResourceKind::Service);
    assert_eq!(error.message(), "failed to call services binding: host is gone");
    let found = ClusterContext::service(Err("host is gone".to_string()), only("ns1"), "a");
    assert!(matches!(found, Err(AccessError::Bridge { kind: ResourceKind::Service, .. })));
}
