//! The computational side of command-line handling: deciding whether a
//! kubeconfig path argument is acceptable, and the namespace fallback.
//! Probing the filesystem and collecting arguments happen outside the
//! library; this module is handed the facts as plain values.

use vstd::prelude::*;
use vstd::string::StringExecFns;

verus! {

/// Accepts a kubeconfig path exactly when the path names an existing
/// regular file, which the caller has checked and reports in
/// `path_is_file`; otherwise reports the offending path back.
pub fn validate_kubeconfig_path(user_provided_path: String, path_is_file: bool) -> (r: Result<
    (),
    String,
>)
    ensures
        path_is_file ==> r is Ok,
        !path_is_file ==> r is Err && r->Err_0@ == "Invalid kubeconfig file: '"@
            + user_provided_path@ + "'"@,
{
    if path_is_file {
        Result::Ok(())
    } else {
        let mut msg: String = "Invalid kubeconfig file: '".to_owned();
        msg.append(user_provided_path.as_str());
        msg.append("'");
        Result::Err(msg)
    }
}

/// The namespace to deploy into: the one the user supplied, or `"default"`
/// when the argument was left unset.
pub fn effective_namespace(namespace: Option<String>) -> (r: String)
    ensures
        namespace is Some ==> r@ == namespace->0@,
        namespace is None ==> r@ == "default"@,
{
    match namespace {
        Option::Some(ns) => ns,
        Option::None => "default".to_owned(),
    }
}

} // verus!
