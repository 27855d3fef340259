use kubernetes_apimachinery::json::{parse_json, Json};
use kubernetes_apimachinery::meta::{Metadata, ObjectMeta};

fn pod_json() -> Json {
    parse_json(
        br#"{
            "apiVersion": "v1",
            "kind": "Pod",
            "metadata": {
                "name": "pod-example"
            },
            "spec": {
                "containers": [
                    {
                        "image": "busybox",
                        "command": ["echo"],
                        "args": ["Hello world"]
                    }
                ]
            }
        }"#,
    )
    .unwrap()
}

#[test]
fn v1_untyped() {
    let j = pod_json();
    assert_eq!(j.kind(), "Pod");
    assert_eq!(j.api_version(), "v1");
    assert_eq!(j.metadata().name.as_ref().unwrap(), "pod-example");
}

#[test]
fn lib_untyped() {
    let j = pod_json();
    assert_eq!(j.kind(), "Pod");
    assert_eq!(j.api_version(), "v1");
    assert_eq!(j.metadata().name.as_ref().unwrap(), "pod-example");
}

#[test]
fn untyped_metadata_members() {
    let j = parse_json(br#"{"metadata":{"namespace":"ns","uid":7,"resourceVersion":"12"}}"#).unwrap();
    let m = ObjectMeta::from_object(&j);
    assert_eq!(m.namespace, Some("ns".to_string()));
    assert_eq!(m.uid, None);
    assert_eq!(m.resource_version, Some("12".to_string()));
    assert_eq!(m.name, None);
    assert_eq!(Json::Null.kind(), "");
}
