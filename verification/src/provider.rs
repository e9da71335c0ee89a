//! The provider contract's data side: the error taxonomy every data source
//! reports through, configuration-schema descriptors for settings UIs, and
//! the connection-test report.

use vstd::prelude::*;
use crate::text::spec_dec_digits;
use crate::text::u64_to_string;

verus! {

/// Identifier of the direct official-API data source.
pub const PROVIDER_OFFICIAL_API: &'static str = "official_api";

/// Identifier of the community REST-wrapper data source.
pub const PROVIDER_COMMUNITY_WRAPPER: &'static str = "community_wrapper";

/// Identifier of the HTML-scraping data source.
pub const PROVIDER_SCRAPING: &'static str = "scraping";

/// Failure taxonomy shared by every provider operation.
#[derive(Debug, Clone)]
pub enum ProviderError {
    /// Transport-level failure, including timeouts.
    Network(String),
    /// The source answered with a non-success status.
    Server { status_code: u16, message: String },
    /// The source's answer could not be interpreted.
    Parse(String),
    /// The requested resource does not exist at the source.
    NotFound(String),
    /// Required settings are missing or unusable.
    InvalidConfig(String),
    /// Any other failure, including unsupported capabilities.
    Other(String),
}

/// Rendering of an error as one descriptive line.
pub open spec fn spec_describe_error(e: ProviderError) -> Seq<char> {
    match e {
        ProviderError::Network(m) => "Network error: "@ + m@,
        ProviderError::Server { status_code, message } => "Server error: "@ + spec_dec_digits(
            status_code as int,
        ) + " - "@ + message@,
        ProviderError::Parse(m) => "Parse error: "@ + m@,
        ProviderError::NotFound(m) => "Not found: "@ + m@,
        ProviderError::InvalidConfig(m) => "Invalid configuration: "@ + m@,
        ProviderError::Other(m) => "Other: "@ + m@,
    }
}

impl ProviderError {
    /// One descriptive line naming the failure kind and its detail.
    pub fn describe(&self) -> (r: String)
        ensures
            r@ == spec_describe_error(*self),
    {
        match self {
            ProviderError::Network(m) => String::from_str("Network error: ").concat(m.as_str()),
            ProviderError::Server { status_code, message } => {
                let code = u64_to_string(*status_code as u64);
                String::from_str("Server error: ").concat(code.as_str()).concat(" - ").concat(
                    message.as_str(),
                )
            },
            ProviderError::Parse(m) => String::from_str("Parse error: ").concat(m.as_str()),
            ProviderError::NotFound(m) => String::from_str("Not found: ").concat(m.as_str()),
            ProviderError::InvalidConfig(m) => String::from_str("Invalid configuration: ").concat(
                m.as_str(),
            ),
            ProviderError::Other(m) => String::from_str("Other: ").concat(m.as_str()),
        }
    }
}

/// Kinds a configuration field can take in a settings UI.
#[derive(Debug, Clone, Copy, PartialEq, Eq, Structural)]
pub enum ConfigFieldType {
    Text,
    Password,
    Number,
    Boolean,
    Url,
    Select,
}

/// One field of a provider's configuration schema; built fluently.
#[derive(Debug, Clone)]
pub struct ConfigField {
    pub key: String,
    pub label: String,
    pub field_type: ConfigFieldType,
    pub required: bool,
    pub description: Option<String>,
    pub default_value: Option<String>,
    pub options: Option<Vec<String>>,
}

impl ConfigField {
    pub fn new(key: &str, label: &str, field_type: ConfigFieldType) -> (r: Self)
        ensures
            r.key@ == key@,
            r.label@ == label@,
            r.field_type == field_type,
            r.required == false,
            r.description is None,
            r.default_value is None,
            r.options is None,
    {
        ConfigField {
            key: key.to_owned(),
            label: label.to_owned(),
            field_type,
            required: false,
            description: None,
            default_value: None,
            options: None,
        }
    }

    pub fn required(self) -> (r: Self)
        ensures
            r == (ConfigField { required: true, ..self }),
    {
        ConfigField { required: true, ..self }
    }

    pub fn description(self, desc: &str) -> (r: Self)
        ensures
            r.description is Some && r.description->0@ == desc@,
            r.key == self.key,
            r.label == self.label,
            r.field_type == self.field_type,
            r.required == self.required,
            r.default_value == self.default_value,
            r.options == self.options,
    {
        ConfigField { description: Some(desc.to_owned()), ..self }
    }

    pub fn default_value(self, value: &str) -> (r: Self)
        ensures
            r.default_value is Some && r.default_value->0@ == value@,
            r.key == self.key,
            r.label == self.label,
            r.field_type == self.field_type,
            r.required == self.required,
            r.description == self.description,
            r.options == self.options,
    {
        ConfigField { default_value: Some(value.to_owned()), ..self }
    }

    pub fn options(self, opts: Vec<String>) -> (r: Self)
        ensures
            r == (ConfigField { options: Some(opts), ..self }),
    {
        ConfigField { options: Some(opts), ..self }
    }
}

/// Descriptive metadata of one provider, for listing and configuration UIs.
#[derive(Debug, Clone)]
pub struct ProviderInfo {
    pub id: String,
    pub name: String,
    pub description: String,
    pub config_schema: Vec<ConfigField>,
}

/// Stored provider configuration: the provider's identifier and its settings
/// as an opaque JSON text.
#[derive(Debug, Clone)]
pub struct ProviderConfig {
    pub provider_id: String,
    pub settings: String,
}

/// The descriptors of every available provider, the primary integration
/// first, each with the configuration schema its settings UI needs.
pub fn available_providers() -> (r: Vec<ProviderInfo>)
    ensures
        r@.len() == 4,
        r@[0].id@ == "mawaqit"@,
        r@[1].id@ == PROVIDER_OFFICIAL_API@,
        r@[2].id@ == PROVIDER_COMMUNITY_WRAPPER@,
        r@[3].id@ == PROVIDER_SCRAPING@,
        r@[0].name@ == "Mawaqit (Recommended)"@,
        r@[1].name@ == "Mawaqit Official API"@,
        r@[2].name@ == "Community Wrapper API"@,
        r@[3].name@ == "HTML Scraping"@,
        r@[0].description@ == "Official Mawaqit.net - No API key required, works worldwide"@,
        r@[1].description@ == "Direct access to Mawaqit prayer times API (requires API token)"@,
        r@[2].description@ == "Community-provided REST API wrapper for prayer times data"@,
        r@[3].description@ == "Fallback provider that scrapes prayer times from mosque websites"@,
        r@[0].config_schema@.len() == 1 && r@[0].config_schema@[0].key@ == "default_country"@,
        r@[1].config_schema@.len() == 2 && r@[1].config_schema@[0].key@ == "api_token"@
            && r@[1].config_schema@[0].required && r@[1].config_schema@[1].key@ == "base_url"@,
        r@[2].config_schema@.len() == 2 && r@[2].config_schema@[0].key@ == "base_url"@
            && r@[2].config_schema@[0].required && r@[2].config_schema@[1].key@ == "api_key"@,
        r@[3].config_schema@.len() == 2 && r@[3].config_schema@[0].key@ == "base_url"@
            && r@[3].config_schema@[1].key@ == "rate_limit"@,
{
    let mut mawaqit_schema: Vec<ConfigField> = Vec::new();
    let mut country_options: Vec<String> = Vec::new();
    country_options.push(String::from_str("FR"));
    country_options.push(String::from_str("TN"));
    country_options.push(String::from_str("MA"));
    country_options.push(String::from_str("DZ"));
    country_options.push(String::from_str("US"));
    country_options.push(String::from_str("GB"));
    country_options.push(String::from_str("CA"));
    mawaqit_schema.push(
        ConfigField::new("default_country", "Default Country", ConfigFieldType::Select)
            .description("Default country to search in").default_value("FR").options(
            country_options,
        ),
    );

    let mut official_schema: Vec<ConfigField> = Vec::new();
    official_schema.push(
        ConfigField::new("api_token", "API Token", ConfigFieldType::Password).required()
            .description("Your Mawaqit API token"),
    );
    official_schema.push(
        ConfigField::new("base_url", "Base URL", ConfigFieldType::Url).default_value(
            "https://mawaqit.net/api",
        ).description("Optional: Custom API base URL"),
    );

    let mut community_schema: Vec<ConfigField> = Vec::new();
    community_schema.push(
        ConfigField::new("base_url", "API Base URL", ConfigFieldType::Url).required().description(
            "The base URL of the community API",
        ),
    );
    community_schema.push(
        ConfigField::new("api_key", "API Key", ConfigFieldType::Password).description(
            "Optional API key for authentication",
        ),
    );

    let mut scraping_schema: Vec<ConfigField> = Vec::new();
    scraping_schema.push(
        ConfigField::new("base_url", "Mosque Website URL", ConfigFieldType::Url).description(
            "The URL of the mosque's prayer times page",
        ),
    );
    scraping_schema.push(
        ConfigField::new("rate_limit", "Rate Limit (ms)", ConfigFieldType::Number).default_value(
            "1000",
        ).description("Delay between requests in milliseconds"),
    );

    let mut out: Vec<ProviderInfo> = Vec::new();
    out.push(
        ProviderInfo {
            id: String::from_str("mawaqit"),
            name: String::from_str("Mawaqit (Recommended)"),
            description: String::from_str(
                "Official Mawaqit.net - No API key required, works worldwide",
            ),
            config_schema: mawaqit_schema,
        },
    );
    out.push(
        ProviderInfo {
            id: String::from_str(PROVIDER_OFFICIAL_API),
            name: String::from_str("Mawaqit Official API"),
            description: String::from_str(
                "Direct access to Mawaqit prayer times API (requires API token)",
            ),
            config_schema: official_schema,
        },
    );
    out.push(
        ProviderInfo {
            id: String::from_str(PROVIDER_COMMUNITY_WRAPPER),
            name: String::from_str("Community Wrapper API"),
            description: String::from_str(
                "Community-provided REST API wrapper for prayer times data",
            ),
            config_schema: community_schema,
        },
    );
    out.push(
        ProviderInfo {
            id: String::from_str(PROVIDER_SCRAPING),
            name: String::from_str("HTML Scraping"),
            description: String::from_str(
                "Fallback provider that scrapes prayer times from mosque websites",
            ),
            config_schema: scraping_schema,
        },
    );
    out
}

/// Outcome of a connectivity test.
#[derive(Debug, Clone)]
pub struct ProviderTestResult {
    pub success: bool,
    pub message: String,
    pub latency_ms: Option<u64>,
}

} // verus!
