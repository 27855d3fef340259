use kubernetes_apimachinery::group::{GroupResource, GroupVersion, GroupVersionKind, GroupVersionResource};
use kubernetes_apimachinery::intstr::IntOrString;

fn gv(g: &str, v: &str) -> GroupVersion {
    GroupVersion { group: g.to_string(), version: v.to_string() }
}

fn gr(g: &str, r: &str) -> GroupResource {
    GroupResource { group: g.to_string(), resource: r.to_string() }
}

fn check_gv_fromstr() {
    assert_eq!(GroupVersion::from_str("v1").unwrap(), gv("", "v1"));
    assert_eq!(GroupVersion::from_str("v2").unwrap(), gv("", "v2"));
    assert_eq!(GroupVersion::from_str("/v1").unwrap(), gv("", "v1"));
    assert_eq!(GroupVersion::from_str("v1/").unwrap(), gv("v1", ""));
    assert!(GroupVersion::from_str("/v1/").is_err());
    assert_eq!(GroupVersion::from_str("v1/a").unwrap(), gv("v1", "a"));
}

fn check_gr_fromstr() {
    assert_eq!(GroupResource::from_str("v1").unwrap(), gr("", "v1"));
    assert_eq!(GroupResource::from_str(".v1").unwrap(), gr("v1", ""));
    assert_eq!(GroupResource::from_str("v1.").unwrap(), gr("", "v1"));
    assert_eq!(GroupResource::from_str("v1.a").unwrap(), gr("a", "v1"));
    assert_eq!(GroupResource::from_str("b.v1.a").unwrap(), gr("v1.a", "b"));
}

#[test]
fn meta_gv_fromstr() {
    check_gv_fromstr();
}

#[test]
fn mod_gv_fromstr() {
    check_gv_fromstr();
}

#[test]
fn groupversion_gv_fromstr() {
    check_gv_fromstr();
}

#[test]
fn meta_gr_fromstr() {
    check_gr_fromstr();
}

#[test]
fn mod_gr_fromstr() {
    check_gr_fromstr();
}

#[test]
fn groupversion_gr_fromstr() {
    check_gr_fromstr();
}

#[test]
fn intstr_intstr_parse() {
    assert_eq!(IntOrString::from(42), IntOrString::Int(42));
    assert_eq!(
        IntOrString::from("foo".to_string()),
        IntOrString::String("foo".to_string())
    );
    assert_eq!(IntOrString::from("42".to_string()), IntOrString::Int(42));
    assert_eq!(
        IntOrString::from("42Gi".to_string()),
        IntOrString::String("42Gi".to_string())
    );
}

#[test]
fn intstr_signs_and_bounds() {
    assert_eq!(IntOrString::from("-7".to_string()), IntOrString::Int(-7));
    assert_eq!(IntOrString::from("+7".to_string()), IntOrString::Int(7));
    assert_eq!(IntOrString::from("2147483647".to_string()), IntOrString::Int(2147483647));
    assert_eq!(IntOrString::from("-2147483648".to_string()), IntOrString::Int(-2147483648));
    assert_eq!(
        IntOrString::from("2147483648".to_string()),
        IntOrString::String("2147483648".to_string())
    );
    assert_eq!(IntOrString::from("".to_string()), IntOrString::String("".to_string()));
    assert_eq!(IntOrString::from("-".to_string()), IntOrString::String("-".to_string()));
}

#[test]
fn intstr_compare_and_text() {
    assert!(IntOrString::Int(8080).eq_int(8080));
    assert!(!IntOrString::String("8080".to_string()).eq_int(8080));
    assert!(IntOrString::Int(8080).eq_str("8080"));
    assert!(IntOrString::String("http".to_string()).eq_str("http"));
    assert!(!IntOrString::Int(1).eq_str("one"));
    assert_eq!(IntOrString::Int(-42).to_string(), "-42");
    assert_eq!(IntOrString::Int(0).to_string(), "0");
    assert_eq!(IntOrString::String("x".to_string()).to_string(), "x");
}

#[test]
fn group_identity_conversions() {
    let gvk = GroupVersion::from_str("apps/v1").unwrap().with_kind("Deployment");
    assert_eq!(gvk.group, "apps");
    assert_eq!(gvk.version, "v1");
    assert_eq!(gvk.kind, "Deployment");
    assert_eq!(gvk.as_gv(), gv("apps", "v1"));
    assert_eq!(gvk.as_gk().with_version("v2").version, "v2");
    assert_eq!(gvk.to_string(), "apps/v1, Kind=Deployment");
    let gvr = gv("", "v1").with_resource("pods");
    assert_eq!(gvr.as_gr(), gr("", "pods"));
    assert_eq!(gvr.to_string(), "/v1, Resource=pods");
    assert_eq!(gr("apps", "deployments").with_version("v1").version, "v1");
    assert_eq!(gr("apps", "deployments").to_string(), "deployments.apps");
    assert_eq!(gv("", "v1").to_string(), "v1");
    assert_eq!(gv("apps", "v1").to_string(), "apps/v1");
    let from_obj = GroupVersionKind::from_object("batch/v1", "Job").unwrap();
    assert_eq!(from_obj.group, "batch");
    assert_eq!(from_obj.kind, "Job");
    assert_eq!(GroupVersionKind::from_object("a/b/c", "Job").unwrap_err().value, "a/b/c");
}

#[test]
fn api_prefix_legacy_and_named_groups() {
    assert_eq!(gv("", "v1").api_prefix(), "api");
    assert_eq!(gv("", "v2").api_prefix(), "apis");
    assert_eq!(gv("apps", "v1").api_prefix(), "apis");
    let gvr = GroupVersionResource { group: "".to_string(), version: "v1".to_string(), resource: "pods".to_string() };
    assert_eq!(gvr.as_gv().api_prefix(), "api");
}
