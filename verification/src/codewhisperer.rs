//! The quota backend for device-flow accounts: which URL the lookup calls
//! and which identifying headers it sends. The answer is read with the same
//! rules as the desktop quota lookup.

use vstd::prelude::*;

verus! {

/// The user block of a quota answer.
#[derive(Debug, Clone)]
pub struct UserInfo {
    pub email: Option<String>,
    pub user_id: Option<String>,
}

/// The subscription block of a quota answer.
#[derive(Debug, Clone)]
pub struct SubscriptionInfo {
    pub subscription_title: Option<String>,
    pub subscription_type: Option<String>,
    pub overage_capability: Option<String>,
    pub upgrade_capability: Option<String>,
    pub subscription_management_target: Option<String>,
}

/// The overage block of a quota answer.
#[derive(Debug, Clone)]
pub struct OverageConfiguration {
    pub overage_status: Option<String>,
}

/// The fixed quota endpoint.
pub open spec fn codewhisperer_endpoint_spec() -> Seq<char> {
    "https://codewhisperer.us-east-1.amazonaws.com"@
}

/// The IDE version the identifying headers claim.
pub open spec fn kiro_version_spec() -> Seq<char> {
    "0.6.18"@
}

/// The quota client, identified to the backend by a machine identifier.
pub struct CodeWhispererClient {
    pub machine_id: String,
}

impl CodeWhispererClient {
    /// A client identified by this machine.
    pub fn new(machine_id: &str) -> (r: CodeWhispererClient)
        ensures
            r.machine_id@ == machine_id@,
    {
        CodeWhispererClient { machine_id: machine_id.to_owned() }
    }

    /// The quota lookup URL, with its fixed query.
    pub fn usage_url(&self) -> (r: String)
        ensures
            r@ == codewhisperer_endpoint_spec()
                + "/getUsageLimits?isEmailRequired=true&origin=AI_EDITOR&resourceType=AGENTIC_REQUEST"@,
    {
        let mut url = String::from_str("https://codewhisperer.us-east-1.amazonaws.com");
        url.append("/getUsageLimits?isEmailRequired=true&origin=AI_EDITOR&resourceType=AGENTIC_REQUEST");
        url
    }

    /// The short identifying header value.
    pub fn x_amz_user_agent(&self) -> (r: String)
        ensures
            r@ == "aws-sdk-js/1.0.0 KiroIDE-"@ + kiro_version_spec() + "-"@ + self.machine_id@,
    {
        let mut value = String::from_str("aws-sdk-js/1.0.0 KiroIDE-");
        value.append("0.6.18");
        value.append("-");
        value.append(self.machine_id.as_str());
        value
    }

    /// The long identifying header value.
    pub fn user_agent(&self) -> (r: String)
        ensures
            r@
                == "aws-sdk-js/1.0.0 ua/2.1 os/windows lang/js md/nodejs#20.16.0 api/codewhispererruntime#1.0.0 m/E KiroIDE-"@
                + kiro_version_spec() + "-"@ + self.machine_id@,
    {
        let mut value = String::from_str(
            "aws-sdk-js/1.0.0 ua/2.1 os/windows lang/js md/nodejs#20.16.0 api/codewhispererruntime#1.0.0 m/E KiroIDE-",
        );
        value.append("0.6.18");
        value.append("-");
        value.append(self.machine_id.as_str());
        value
    }
}

} // verus!
