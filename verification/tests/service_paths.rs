use google_ai_rs::rpc::{not_ready_message, route, unimplemented_headers, Rpc, Service};

const SERVICES: [Service; 4] = [Service::Cache, Service::File, Service::Generative, Service::Model];

#[test]
fn every_method_is_routed_to_itself() {
    let mut count = 0;
    for service in SERVICES {
        for rpc in service.rpcs() {
            assert_eq!(rpc.service(), service);
            assert_eq!(route(service, rpc.path()), Some(rpc));
            count += 1;
        }
    }
    assert_eq!(count, 22);
}

#[test]
fn paths_are_service_then_method() {
    for service in SERVICES {
        for rpc in service.rpcs() {
            assert_eq!(rpc.path(), format!("/{}/{}", service.name(), rpc.name()));
        }
    }
    assert_eq!(
        Rpc::StreamGenerateContent.path(),
        "/google.ai.generativelanguage.v1beta.GenerativeService/StreamGenerateContent"
    );
}

#[test]
fn other_paths_are_not_routed() {
    assert_eq!(route(Service::Model, Rpc::GetCachedContent.path()), None);
    assert_eq!(route(Service::Cache, "/google.ai.generativelanguage.v1beta.CacheService/Unknown"), None);
    assert_eq!(route(Service::Generative, ""), None);
}

#[test]
fn only_stream_generate_content_streams() {
    for service in SERVICES {
        for rpc in service.rpcs() {
            assert_eq!(rpc.is_server_streaming(), rpc == Rpc::StreamGenerateContent);
        }
    }
}

#[test]
fn unknown_path_answer_and_readiness_error() {
    assert_eq!(
        unimplemented_headers(),
        vec![
            ("grpc-status".to_string(), "12".to_string()),
            ("content-type".to_string(), "application/grpc".to_string()),
        ]
    );
    assert_eq!(not_ready_message("connection refused"), "Service was not ready: connection refused");
}
