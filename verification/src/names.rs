//! Validity of Kubernetes resource names and the names this tool derives
//! from the user-supplied workload name and namespace.

use vstd::prelude::*;
use vstd::string::StrSliceExecFns;
use vstd::string::StringExecFns;

verus! {

/// Longest resource name accepted: the DNS label length limit.
pub const MAX_NAME_LEN: usize = 63;

/// A character allowed in a resource name: lowercase alphanumeric or hyphen.
pub open spec fn valid_name_char(c: char) -> bool {
    ('a' <= c && c <= 'z') || ('0' <= c && c <= '9') || c == '-'
}

/// A valid resource name: nonempty, within the length limit, and made of
/// lowercase alphanumerics and hyphens only.
pub open spec fn valid_resource_name(s: Seq<char>) -> bool {
    &&& 1 <= s.len() <= MAX_NAME_LEN
    &&& forall|i: int| 0 <= i < s.len() ==> valid_name_char(s[i])
}

/// Decides `valid_resource_name` for a given string.
pub fn is_valid_resource_name(s: &str) -> (r: bool)
    ensures
        r == valid_resource_name(s@),
{
    let len: usize = s.unicode_len();
    if len == 0 || len > MAX_NAME_LEN {
        return false;
    }
    let mut i: usize = 0;
    while i < len
        invariant
            len == s@.len(),
            1 <= len <= MAX_NAME_LEN,
            0 <= i <= len,
            forall|j: int| 0 <= j < i ==> valid_name_char(s@[j]),
        decreases len - i,
    {
        let c: char = s.get_char(i);
        let ok: bool = ('a' <= c && c <= 'z') || ('0' <= c && c <= '9') || c == '-';
        if !ok {
            return false;
        }
        i = i + 1;
    }
    true
}

/// Name of the stateful workload resource derived from the workload name.
pub open spec fn spec_stateful_set_name(name: Seq<char>) -> Seq<char> {
    name + "-stateful-set"@
}

/// Name of the service resource derived from the workload name.
pub open spec fn spec_service_name(name: Seq<char>) -> Seq<char> {
    name + "-service"@
}

/// Name of the ingress resource derived from the workload name.
pub open spec fn spec_ingress_name(name: Seq<char>) -> Seq<char> {
    name + "-ingress"@
}

/// Cluster-internal DNS name under which the service is reachable: the
/// service name qualified by the namespace and the cluster domain.
pub open spec fn spec_service_dns_name(name: Seq<char>, namespace: Seq<char>) -> Seq<char> {
    spec_service_name(name) + "."@ + namespace + ".svc.cluster.local"@
}

/// Container image reference: image name and tag joined by a colon.
pub open spec fn spec_image_ref(img_name: Seq<char>, img_tag: Seq<char>) -> Seq<char> {
    img_name + ":"@ + img_tag
}

/// Builds `<name>-stateful-set`.
pub fn stateful_set_name(name: &str) -> (r: String)
    ensures
        r@ == spec_stateful_set_name(name@),
{
    let mut s: String = name.to_owned();
    s.append("-stateful-set");
    s
}

/// Builds `<name>-service`.
pub fn service_name(name: &str) -> (r: String)
    ensures
        r@ == spec_service_name(name@),
{
    let mut s: String = name.to_owned();
    s.append("-service");
    s
}

/// Builds `<name>-ingress`.
pub fn ingress_name(name: &str) -> (r: String)
    ensures
        r@ == spec_ingress_name(name@),
{
    let mut s: String = name.to_owned();
    s.append("-ingress");
    s
}

/// Builds `<name>-service.<namespace>.svc.cluster.local`.
pub fn service_dns_name(name: &str, namespace: &str) -> (r: String)
    ensures
        r@ == spec_service_dns_name(name@, namespace@),
{
    let mut s: String = service_name(name);
    s.append(".");
    s.append(namespace);
    s.append(".svc.cluster.local");
    s
}

/// Builds `<image name>:<image tag>`.
pub fn image_ref(img_name: &str, img_tag: &str) -> (r: String)
    ensures
        r@ == spec_image_ref(img_name@, img_tag@),
{
    let mut s: String = img_name.to_owned();
    s.append(":");
    s.append(img_tag);
    s
}

} // verus!
