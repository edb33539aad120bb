//! The provider registry: a closed mapping from a provider identifier to its
//! fixed configuration and the matching concrete flow.
//!
//! The mapping is an exhaustive match over the known identifiers, so there is
//! no runtime registration to go wrong; an unknown identifier is simply not
//! configured, which callers surface as `UnsupportedProvider`.

use crate::idc::IdcProvider;
use crate::social::SocialProvider;
use crate::util::clone_opt;
use crate::util::string_eq_str;
use vstd::prelude::*;

verus! {

/// Which protocol backs a provider.
#[derive(Debug, Clone, Copy, PartialEq, Eq, Structural)]
pub enum AuthMethod {
    Social,
    Idc,
}

/// The fixed configuration of one known provider.
#[derive(Debug, Clone)]
pub struct ProviderConfig {
    pub provider_id: String,
    pub auth_method: AuthMethod,
    pub region: String,
    pub start_url: Option<String>,
}

/// The configuration of a known provider: the two redirect-correlated ones
/// and the device-flow one, each with its fixed region and, for the device
/// flow, its fixed issuer start URL. Any other identifier has none.
pub fn get_provider_config(provider: &str) -> (r: Option<ProviderConfig>)
    ensures
        provider@ == "Google"@ ==> (r matches Some(c) && c.provider_id@ == "Google"@
            && c.auth_method == AuthMethod::Social && c.region@ == "us-east-1"@ && c.start_url
            is None),
        provider@ == "Github"@ ==> (r matches Some(c) && c.provider_id@ == "Github"@
            && c.auth_method == AuthMethod::Social && c.region@ == "us-east-1"@ && c.start_url
            is None),
        provider@ == "BuilderId"@ ==> (r matches Some(c) && c.provider_id@ == "BuilderId"@
            && c.auth_method == AuthMethod::Idc && c.region@ == "us-east-1"@ && (
        c.start_url matches Some(u) && u@ == "https://view.awsapps.com/start"@)),
        provider@ != "Google"@ && provider@ != "Github"@ && provider@ != "BuilderId"@ ==> r
            is None,
{
    proof {
        lemma_provider_names_distinct();
    }
    let p = provider.to_owned();
    if string_eq_str(&p, "Google") {
        Some(
            ProviderConfig {
                provider_id: String::from_str("Google"),
                auth_method: AuthMethod::Social,
                region: String::from_str("us-east-1"),
                start_url: None,
            },
        )
    } else if string_eq_str(&p, "Github") {
        Some(
            ProviderConfig {
                provider_id: String::from_str("Github"),
                auth_method: AuthMethod::Social,
                region: String::from_str("us-east-1"),
                start_url: None,
            },
        )
    } else if string_eq_str(&p, "BuilderId") {
        Some(
            ProviderConfig {
                provider_id: String::from_str("BuilderId"),
                auth_method: AuthMethod::Idc,
                region: String::from_str("us-east-1"),
                start_url: Some(String::from_str("https://view.awsapps.com/start")),
            },
        )
    } else {
        None
    }
}

/// The identifiers the registry knows, in a fixed order.
pub fn get_supported_providers() -> (r: Vec<&'static str>)
    ensures
        r@.len() == 3,
        r@[0]@ == "Google"@,
        r@[1]@ == "Github"@,
        r@[2]@ == "BuilderId"@,
{
    let providers: Vec<&'static str> = vec!["Google", "Github", "BuilderId"];
    providers
}

/// Construct the redirect-correlated flow for a configuration.
pub fn create_social_provider(config: &ProviderConfig) -> (r: SocialProvider)
    ensures
        r.provider_id@ == config.provider_id@,
{
    SocialProvider::new(config.provider_id.as_str())
}

/// Construct the device flow for a configuration.
pub fn create_idc_provider(config: &ProviderConfig) -> (r: IdcProvider)
    ensures
        r.provider_id@ == config.provider_id@,
        r.region@ == config.region@,
        r.start_url == config.start_url,
{
    IdcProvider::new(
        config.provider_id.as_str(),
        config.region.as_str(),
        clone_opt(&config.start_url),
    )
}

/// The three known provider identifiers are pairwise distinct strings.
proof fn lemma_provider_names_distinct()
    ensures
        "Google"@ != "Github"@,
        "Google"@ != "BuilderId"@,
        "Github"@ != "BuilderId"@,
{
    reveal_strlit("Google");
    reveal_strlit("Github");
    reveal_strlit("BuilderId");
    assert("Google"@.len() == 6);
    assert("Github"@.len() == 6);
    assert("BuilderId"@.len() == 9);
    assert("Google"@[1] == 'o');
    assert("Github"@[1] == 'i');
}

} // verus!
