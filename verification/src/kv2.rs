//! Interactions with the v2 key-value backend in vault: configuration,
//! reads, writes and the several kinds of version deletion.

use vstd::prelude::*;

use crate::client::Client;
use crate::client::spec_sent_one;
use crate::encode::json_array_u32;
use crate::encode::json_bool;
use crate::encode::json_field;
use crate::encode::json_object;
use crate::encode::json_string;
use crate::encode::json_u64;
use crate::encode::spec_dec;
use crate::encode::spec_json_array;
use crate::encode::spec_json_bool;
use crate::encode::spec_json_field;
use crate::encode::spec_json_object;
use crate::encode::spec_json_string;
use crate::errors::Error;
use crate::Auth;

verus! {

/// The configuration of a single kv2 mount.
#[derive(Debug)]
pub struct Configuration {
    /// Whether all keys are required to have the `cas` option set when
    /// they are written to.
    pub cas_required: Option<bool>,
    /// If set, the duration for which a version is held; older versions
    /// are dropped.
    pub delete_version_after: Option<String>,
    /// The number of versions kept at any given time; beyond it the oldest
    /// versions are dropped.
    pub max_versions: Option<u32>,
}

impl PartialEq for Configuration {
    fn eq(&self, other: &Self) -> (r: bool) {
        let cas_eq = match (&self.cas_required, &other.cas_required) {
            (None, None) => true,
            (Some(a), Some(b)) => *a == *b,
            _ => false,
        };
        let dva_eq = match (&self.delete_version_after, &other.delete_version_after) {
            (None, None) => true,
            (Some(a), Some(b)) => *a == *b,
            _ => false,
        };
        let mv_eq = match (&self.max_versions, &other.max_versions) {
            (None, None) => true,
            (Some(a), Some(b)) => *a == *b,
            _ => false,
        };
        cas_eq && dva_eq && mv_eq
    }
}

impl vstd::std_specs::cmp::PartialEqSpecImpl for Configuration {
    open spec fn obeys_eq_spec() -> bool {
        true
    }

    open spec fn eq_spec(&self, other: &Configuration) -> bool {
        &&& self.cas_required == other.cas_required
        &&& (match (self.delete_version_after, other.delete_version_after) {
            (None, None) => true,
            (Some(a), Some(b)) => a@ == b@,
            _ => false,
        })
        &&& self.max_versions == other.max_versions
    }
}

/// The fields of the JSON body that configures a kv2 mount: each option
/// appears exactly when it is set, in a fixed order.
pub open spec fn spec_configuration_fields(c: &Configuration) -> Seq<Seq<char>> {
    (match c.cas_required {
        Some(b) => seq![spec_json_field("cas_required"@, spec_json_bool(b))],
        None => Seq::<Seq<char>>::empty(),
    }) + (match c.delete_version_after {
        Some(s) => seq![spec_json_field("delete_version_after"@, spec_json_string(s@))],
        None => Seq::<Seq<char>>::empty(),
    }) + (match c.max_versions {
        Some(n) => seq![spec_json_field("max_versions"@, spec_dec(n as nat))],
        None => Seq::<Seq<char>>::empty(),
    })
}

/// Renders the JSON body that configures a kv2 mount.
pub fn configuration_body(config: &Configuration) -> (r: String)
    ensures
        r@ == spec_json_object(spec_configuration_fields(config)),
{
    let mut fields: Vec<String> = Vec::new();
    match &config.cas_required {
        Some(b) => {
            let rendered = json_bool(*b);
            fields.push(json_field("cas_required", rendered.as_str()));
        },
        None => {},
    }
    match &config.delete_version_after {
        Some(s) => {
            let rendered = json_string(s.as_str());
            fields.push(json_field("delete_version_after", rendered.as_str()));
        },
        None => {},
    }
    match &config.max_versions {
        Some(n) => {
            let rendered = json_u64(*n as u64);
            fields.push(json_field("max_versions", rendered.as_str()));
        },
        None => {},
    }
    proof {
        assert(fields.deep_view() =~= spec_configuration_fields(config));
    }
    json_object(&fields)
}

/// Configures the given kv2 mount with the provided options: one POST of
/// the rendered configuration to the mount's config endpoint.
pub fn configure<T: Auth>(client: &mut Client<T>, mount: &str, config: &Configuration) -> (r:
    Result<(), Error>)
    ensures
        final(client).wf() == old(client).wf(),
        final(client).policy() == old(client).policy(),
        final(client).backend().renews() == old(client).backend().renews(),
        old(client).backend().logins() <= final(client).backend().logins() <= old(
            client,
        ).backend().logins() + 1,
        final(client).requests() == old(client).requests() || spec_sent_one(
            old(client).requests(),
            final(client).requests(),
            "POST"@,
            mount@ + "/config"@,
            final(client).backend().credential().token,
            Some(spec_json_object(spec_configuration_fields(config))),
        ),
        r is Ok ==> spec_sent_one(
            old(client).requests(),
            final(client).requests(),
            "POST"@,
            mount@ + "/config"@,
            final(client).backend().credential().token,
            Some(spec_json_object(spec_configuration_fields(config))),
        ),
{
    let mut path = String::from_str(mount);
    path.append("/config");
    let body = configuration_body(config);
    match client.vault_request("POST", path.as_str(), Some(body)) {
        Err(e) => Err(e),
        Ok(_) => Ok(()),
    }
}

/// Loads the current configuration of the kv2 mount: one GET of the
/// mount's config endpoint, whose `data` object carries the options.
pub fn get_configuration<T: Auth>(client: &mut Client<T>, mount: &str) -> (r: Result<
    Configuration,
    Error,
>)
    ensures
        final(client).wf() == old(client).wf(),
        final(client).policy() == old(client).policy(),
        final(client).backend().renews() == old(client).backend().renews(),
        old(client).backend().logins() <= final(client).backend().logins() <= old(
            client,
        ).backend().logins() + 1,
        final(client).requests() == old(client).requests() || spec_sent_one(
            old(client).requests(),
            final(client).requests(),
            "GET"@,
            mount@ + "/config"@,
            final(client).backend().credential().token,
            None,
        ),
        r is Ok ==> spec_sent_one(
            old(client).requests(),
            final(client).requests(),
            "GET"@,
            mount@ + "/config"@,
            final(client).backend().credential().token,
            None,
        ),
        r matches Ok(config) ==> spec_decoded_configuration(config),
{
    let mut path = String::from_str(mount);
    path.append("/config");
    let response = match client.vault_request("GET", path.as_str(), None) {
        Err(e) => return Err(e),
        Ok(resp) => resp,
    };
    match decode_configuration(response.body.as_str()) {
        None => Err(Error::Other),
        Some(config) => {
            proof {
                assert(spec_configuration_response(response.body@) matches Some(v)
                    && config.cas_required == v.cas_required
                    && config.delete_version_after.deep_view() == v.delete_version_after
                    && config.max_versions == v.max_versions);
            }
            Ok(config)
        },
    }
}

/// A kv2 config response's `data` object, as one mathematical value: each
/// option is present exactly when the response carries it.
pub struct ConfigurationView {
    pub cas_required: Option<bool>,
    pub delete_version_after: Option<Seq<char>>,
    pub max_versions: Option<u32>,
}

/// The configuration serde_json reads out of the `data` object of a kv2
/// config response body: an absent option stays `None`; a body that is not
/// JSON, has no `data` object, or carries an option of the wrong shape (or
/// a version count above u32) makes the whole response `None`. The result
/// depends on the body text alone.
pub uninterp spec fn spec_configuration_response(body: Seq<char>) -> Option<ConfigurationView>;

/// Reads the configuration options out of a kv2 config response body.
///
/// Relies on serde_json to parse the body and select the `data` object's
/// `cas_required`, `delete_version_after` and `max_versions`; what that
/// selection returns is exactly what `spec_configuration_response` names.
#[verifier::external_body]
pub fn decode_configuration(body: &str) -> (r: Option<Configuration>)
    ensures
        r is Some <==> spec_configuration_response(body@) is Some,
        r matches Some(config) ==> (spec_configuration_response(body@) matches Some(v)
            && config.cas_required == v.cas_required && config.delete_version_after.deep_view()
            == v.delete_version_after && config.max_versions == v.max_versions),
{
    let parsed: serde_json::Value = serde_json::from_str(body).ok()?;
    let data = parsed.get("data")?;
    let cas_required = match data.get("cas_required") {
        None => None,
        Some(v) => Some(v.as_bool()?),
    };
    let delete_version_after = match data.get("delete_version_after") {
        None => None,
        Some(v) => Some(v.as_str()?.to_owned()),
    };
    let max_versions = match data.get("max_versions") {
        None => None,
        Some(v) => Some(u32::try_from(v.as_u64()?).ok()?),
    };
    Some(Configuration { cas_required, delete_version_after, max_versions })
}

/// Some response body decodes to a configuration with exactly these
/// options.
pub open spec fn spec_decoded_configuration(config: Configuration) -> bool {
    exists|body: Seq<char>|
        {
            &&& #[trigger] spec_configuration_response(body) matches Some(v)
            &&& config.cas_required == v.cas_required
            &&& config.delete_version_after.deep_view() == v.delete_version_after
            &&& config.max_versions == v.max_versions
        }
}

/// The stored secret serde_json reads out of a kv2 read response body: the
/// response's `data.data` field rendered back as JSON text, `None` when
/// the body is not JSON or has no such field. The result depends on the
/// body text alone.
pub uninterp spec fn spec_secret_response(body: Seq<char>) -> Option<Seq<char>>;

/// Reads the stored secret out of a kv2 read response body, as JSON text.
///
/// Relies on serde_json to parse the body, select `data.data` and render
/// it back as text; what that returns is exactly what
/// `spec_secret_response` names.
#[verifier::external_body]
pub fn decode_secret(body: &str) -> (r: Option<String>)
    ensures
        r.deep_view() == spec_secret_response(body@),
{
    let parsed: serde_json::Value = serde_json::from_str(body).ok()?;
    let inner = parsed.get("data")?.get("data")?;
    serde_json::to_string(inner).ok()
}

/// Some response body decodes to a stored secret with exactly this text.
pub open spec fn spec_decoded_secret(text: Seq<char>) -> bool {
    exists|body: Seq<char>| #[trigger] spec_secret_response(body) == Some(text)
}

/// Loads data from the kv2 mount and hands back the stored secret as JSON
/// text: one GET of the mount's data endpoint, with the version appended
/// as a query when one is asked for.
pub fn get<T: Auth>(client: &mut Client<T>, mount: &str, name: &str, version: Option<u32>) -> (r:
    Result<String, Error>)
    ensures
        final(client).wf() == old(client).wf(),
        final(client).policy() == old(client).policy(),
        final(client).backend().renews() == old(client).backend().renews(),
        old(client).backend().logins() <= final(client).backend().logins() <= old(
            client,
        ).backend().logins() + 1,
        final(client).requests() == old(client).requests() || spec_sent_one(
            old(client).requests(),
            final(client).requests(),
            "GET"@,
            spec_get_path(mount@, name@, version),
            final(client).backend().credential().token,
            None,
        ),
        r is Ok ==> spec_sent_one(
            old(client).requests(),
            final(client).requests(),
            "GET"@,
            spec_get_path(mount@, name@, version),
            final(client).backend().credential().token,
            None,
        ),
        r matches Ok(text) ==> spec_decoded_secret(text@),
{
    let path = get_path(mount, name, version);
    let response = match client.vault_request("GET", path.as_str(), None) {
        Err(e) => return Err(e),
        Ok(resp) => resp,
    };
    match decode_secret(response.body.as_str()) {
        None => Err(Error::Other),
        Some(text) => {
            proof {
                assert(spec_secret_response(response.body@) == Some(text@));
            }
            Ok(text)
        },
    }
}

/// The path of a kv2 read: the mount's data endpoint for the named secret,
/// with the version appended as a query when one is asked for.
pub open spec fn spec_get_path(mount: Seq<char>, name: Seq<char>, version: Option<u32>) -> Seq<
    char,
> {
    match version {
        Some(v) => mount + "/data/"@ + name + "?version="@ + spec_dec(v as nat),
        None => mount + "/data/"@ + name,
    }
}

/// Builds the path of a kv2 read.
pub fn get_path(mount: &str, name: &str, version: Option<u32>) -> (r: String)
    ensures
        r@ == spec_get_path(mount@, name@, version),
{
    let mut path = String::from_str(mount);
    path.append("/data/");
    path.append(name);
    match version {
        Some(v) => {
            path.append("?version=");
            let digits = json_u64(v as u64);
            path.append(digits.as_str());
        },
        None => {},
    }
    path
}

/// Updates or sets the secret stored at a path of the kv2 mount. The data
/// is handed over as already rendered JSON text; a compare-and-swap
/// version, when given, rides along in the body's options.
pub fn update_set<T: Auth>(
    client: &mut Client<T>,
    mount: &str,
    name: &str,
    data: &str,
    cas: Option<u16>,
) -> (r: Result<(), Error>)
    ensures
        final(client).wf() == old(client).wf(),
        final(client).policy() == old(client).policy(),
        final(client).backend().renews() == old(client).backend().renews(),
        old(client).backend().logins() <= final(client).backend().logins() <= old(
            client,
        ).backend().logins() + 1,
        final(client).requests() == old(client).requests() || spec_sent_one(
            old(client).requests(),
            final(client).requests(),
            "POST"@,
            mount@ + "/data/"@ + name@,
            final(client).backend().credential().token,
            Some(spec_update_body(data@, cas)),
        ),
        r is Ok ==> spec_sent_one(
            old(client).requests(),
            final(client).requests(),
            "POST"@,
            mount@ + "/data/"@ + name@,
            final(client).backend().credential().token,
            Some(spec_update_body(data@, cas)),
        ),
{
    let mut path = String::from_str(mount);
    path.append("/data/");
    path.append(name);
    let body = update_body(data, cas);
    match client.vault_request("POST", path.as_str(), Some(body)) {
        Err(e) => Err(e),
        Ok(_) => Ok(()),
    }
}

/// The JSON body of a kv2 write: the data under `data`, and when a
/// compare-and-swap version is given, an `options` object carrying `cas`.
pub open spec fn spec_update_body(data: Seq<char>, cas: Option<u16>) -> Seq<char> {
    match cas {
        Some(v) => spec_json_object(
            seq![
                spec_json_field("data"@, data),
                spec_json_field(
                    "options"@,
                    spec_json_object(seq![spec_json_field("cas"@, spec_dec(v as nat))]),
                ),
            ],
        ),
        None => spec_json_object(seq![spec_json_field("data"@, data)]),
    }
}

/// Renders the JSON body of a kv2 write.
pub fn update_body(data: &str, cas: Option<u16>) -> (r: String)
    ensures
        r@ == spec_update_body(data@, cas),
{
    let mut fields: Vec<String> = Vec::new();
    fields.push(json_field("data", data));
    match cas {
        Some(v) => {
            let mut option_fields: Vec<String> = Vec::new();
            let rendered = json_u64(v as u64);
            option_fields.push(json_field("cas", rendered.as_str()));
            proof {
                assert(option_fields.deep_view() =~= seq![
                    spec_json_field("cas"@, spec_dec(v as nat)),
                ]);
            }
            let options = json_object(&option_fields);
            fields.push(json_field("options", options.as_str()));
            proof {
                assert(fields.deep_view() =~= seq![
                    spec_json_field("data"@, data@),
                    spec_json_field(
                        "options"@,
                        spec_json_object(seq![spec_json_field("cas"@, spec_dec(v as nat))]),
                    ),
                ]);
            }
        },
        None => {
            proof {
                assert(fields.deep_view() =~= seq![spec_json_field("data"@, data@)]);
            }
        },
    }
    json_object(&fields)
}

/// Deletes the latest version of the secret, which only stops it from
/// being returned; the data itself stays and the delete can be undone.
pub fn delete<T: Auth>(client: &mut Client<T>, mount: &str, name: &str) -> (r: Result<(), Error>)
    ensures
        final(client).wf() == old(client).wf(),
        final(client).policy() == old(client).policy(),
        final(client).backend().renews() == old(client).backend().renews(),
        old(client).backend().logins() <= final(client).backend().logins() <= old(
            client,
        ).backend().logins() + 1,
        final(client).requests() == old(client).requests() || spec_sent_one(
            old(client).requests(),
            final(client).requests(),
            "DELETE"@,
            mount@ + "/data/"@ + name@,
            final(client).backend().credential().token,
            None,
        ),
        r is Ok ==> spec_sent_one(
            old(client).requests(),
            final(client).requests(),
            "DELETE"@,
            mount@ + "/data/"@ + name@,
            final(client).backend().credential().token,
            None,
        ),
{
    let mut path = String::from_str(mount);
    path.append("/data/");
    path.append(name);
    match client.vault_request("DELETE", path.as_str(), None) {
        Err(e) => Err(e),
        Ok(_) => Ok(()),
    }
}

/// The JSON body naming the versions an operation applies to.
pub open spec fn spec_versions_body(versions: Seq<u32>) -> Seq<char> {
    spec_json_object(
        seq![
            spec_json_field(
                "versions"@,
                spec_json_array(versions.map_values(|v: u32| spec_dec(v as nat))),
            ),
        ],
    )
}

/// Renders the JSON body naming the versions an operation applies to.
pub fn versions_body(versions: &Vec<u32>) -> (r: String)
    ensures
        r@ == spec_versions_body(versions@),
{
    let mut fields: Vec<String> = Vec::new();
    let rendered = json_array_u32(versions);
    fields.push(json_field("versions", rendered.as_str()));
    proof {
        assert(fields.deep_view() =~= seq![
            spec_json_field(
                "versions"@,
                spec_json_array(versions@.map_values(|v: u32| spec_dec(v as nat))),
            ),
        ]);
    }
    json_object(&fields)
}

/// Issues a soft delete, like `delete`, for all the given versions.
pub fn delete_versions<T: Auth>(
    client: &mut Client<T>,
    mount: &str,
    name: &str,
    versions: Vec<u32>,
) -> (r: Result<(), Error>)
    ensures
        final(client).wf() == old(client).wf(),
        final(client).policy() == old(client).policy(),
        final(client).backend().renews() == old(client).backend().renews(),
        old(client).backend().logins() <= final(client).backend().logins() <= old(
            client,
        ).backend().logins() + 1,
        final(client).requests() == old(client).requests() || spec_sent_one(
            old(client).requests(),
            final(client).requests(),
            "POST"@,
            mount@ + "/delete/"@ + name@,
            final(client).backend().credential().token,
            Some(spec_versions_body(versions@)),
        ),
        r is Ok ==> spec_sent_one(
            old(client).requests(),
            final(client).requests(),
            "POST"@,
            mount@ + "/delete/"@ + name@,
            final(client).backend().credential().token,
            Some(spec_versions_body(versions@)),
        ),
{
    let mut path = String::from_str(mount);
    path.append("/delete/");
    path.append(name);
    let body = versions_body(&versions);
    match client.vault_request("POST", path.as_str(), Some(body)) {
        Err(e) => Err(e),
        Ok(_) => Ok(()),
    }
}

/// Undeletes previously deleted (not destroyed) versions, which afterwards
/// appear again as if they had never been deleted.
pub fn undelete_versions<T: Auth>(
    client: &mut Client<T>,
    mount: &str,
    name: &str,
    versions: Vec<u32>,
) -> (r: Result<(), Error>)
    ensures
        final(client).wf() == old(client).wf(),
        final(client).policy() == old(client).policy(),
        final(client).backend().renews() == old(client).backend().renews(),
        old(client).backend().logins() <= final(client).backend().logins() <= old(
            client,
        ).backend().logins() + 1,
        final(client).requests() == old(client).requests() || spec_sent_one(
            old(client).requests(),
            final(client).requests(),
            "POST"@,
            mount@ + "/undelete/"@ + name@,
            final(client).backend().credential().token,
            Some(spec_versions_body(versions@)),
        ),
        r is Ok ==> spec_sent_one(
            old(client).requests(),
            final(client).requests(),
            "POST"@,
            mount@ + "/undelete/"@ + name@,
            final(client).backend().credential().token,
            Some(spec_versions_body(versions@)),
        ),
{
    let mut path = String::from_str(mount);
    path.append("/undelete/");
    path.append(name);
    let body = versions_body(&versions);
    match client.vault_request("POST", path.as_str(), Some(body)) {
        Err(e) => Err(e),
        Ok(_) => Ok(()),
    }
}

/// Permanently removes the given versions, with no way to recover the data.
pub fn destroy_versions<T: Auth>(
    client: &mut Client<T>,
    mount: &str,
    name: &str,
    versions: Vec<u32>,
) -> (r: Result<(), Error>)
    ensures
        final(client).wf() == old(client).wf(),
        final(client).policy() == old(client).policy(),
        final(client).backend().renews() == old(client).backend().renews(),
        old(client).backend().logins() <= final(client).backend().logins() <= old(
            client,
        ).backend().logins() + 1,
        final(client).requests() == old(client).requests() || spec_sent_one(
            old(client).requests(),
            final(client).requests(),
            "POST"@,
            mount@ + "/destroy/"@ + name@,
            final(client).backend().credential().token,
            Some(spec_versions_body(versions@)),
        ),
        r is Ok ==> spec_sent_one(
            old(client).requests(),
            final(client).requests(),
            "POST"@,
            mount@ + "/destroy/"@ + name@,
            final(client).backend().credential().token,
            Some(spec_versions_body(versions@)),
        ),
{
    let mut path = String::from_str(mount);
    path.append("/destroy/");
    path.append(name);
    let body = versions_body(&versions);
    match client.vault_request("POST", path.as_str(), Some(body)) {
        Err(e) => Err(e),
        Ok(_) => Ok(()),
    }
}

/// Deletes all versions and metadata of a key permanently; like
/// `destroy_versions`, this cannot be undone.
pub fn delete_metadata_all_versions<T: Auth>(client: &mut Client<T>, mount: &str, name: &str) -> (r:
    Result<(), Error>)
    ensures
        final(client).wf() == old(client).wf(),
        final(client).policy() == old(client).policy(),
        final(client).backend().renews() == old(client).backend().renews(),
        old(client).backend().logins() <= final(client).backend().logins() <= old(
            client,
        ).backend().logins() + 1,
        final(client).requests() == old(client).requests() || spec_sent_one(
            old(client).requests(),
            final(client).requests(),
            "DELETE"@,
            mount@ + "/metadata/"@ + name@,
            final(client).backend().credential().token,
            None,
        ),
        r is Ok ==> spec_sent_one(
            old(client).requests(),
            final(client).requests(),
            "DELETE"@,
            mount@ + "/metadata/"@ + name@,
            final(client).backend().credential().token,
            None,
        ),
{
    let mut path = String::from_str(mount);
    path.append("/metadata/");
    path.append(name);
    match client.vault_request("DELETE", path.as_str(), None) {
        Err(e) => Err(e),
        Ok(_) => Ok(()),
    }
}

} // verus!
