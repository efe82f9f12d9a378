//! The EST client's configuration as the issuer builds it, with a model of
//! what it holds.
use vstd::prelude::*;

use usg_est_client::{EstClientConfig, EstClientConfigBuilder};

verus! {

/// What an EST client configuration, or its builder, holds of the settings
/// the issuer makes.
pub struct EstSettings {
    /// The server URL text handed to the builder, where one was set.
    pub server_url: Option<Seq<char>>,
    /// The CA label for multi-CA deployments.
    pub ca_label: Option<Seq<char>>,
    /// Explicit trust anchors (PEM). Where none were set, a built
    /// configuration trusts the Mozilla root store.
    pub trust_anchors: Option<Seq<Seq<u8>>>,
    /// Whether CSR signatures are checked before submission.
    pub verify_csr_signatures: bool,
    /// HTTP basic authentication: username and password.
    pub http_auth: Option<(Seq<char>, Seq<char>)>,
    /// TLS client identity: certificate and key, both PEM.
    pub client_identity: Option<(Seq<u8>, Seq<u8>)>,
}

impl EstSettings {
    /// A fresh builder's settings: nothing set.
    pub open spec fn empty() -> EstSettings {
        EstSettings {
            server_url: None,
            ca_label: None,
            trust_anchors: None,
            verify_csr_signatures: false,
            http_auth: None,
            client_identity: None,
        }
    }

    pub open spec fn with_server_url(self, url: Seq<char>) -> EstSettings {
        EstSettings { server_url: Some(url), ..self }
    }

    pub open spec fn with_trust_anchors(self, anchors: Seq<Seq<u8>>) -> EstSettings {
        EstSettings { trust_anchors: Some(anchors), ..self }
    }

    pub open spec fn with_csr_signature_check(self) -> EstSettings {
        EstSettings { verify_csr_signatures: true, ..self }
    }

    pub open spec fn with_ca_label(self, label: Seq<char>) -> EstSettings {
        EstSettings { ca_label: Some(label), ..self }
    }

    pub open spec fn with_http_auth(self, username: Seq<char>, password: Seq<char>) -> EstSettings {
        EstSettings { http_auth: Some((username, password)), ..self }
    }

    pub open spec fn with_client_identity(self, certificate: Seq<u8>, key: Seq<u8>) -> EstSettings {
        EstSettings { client_identity: Some((certificate, key)), ..self }
    }
}

/// A builder of the EST client's configuration, with the settings made on
/// it. Only the builder calls set them.
pub struct EstConfigBuilder {
    pub(crate) inner: EstClientConfigBuilder,
    pub(crate) settings: Ghost<EstSettings>,
}

impl View for EstConfigBuilder {
    type V = EstSettings;

    closed spec fn view(&self) -> EstSettings {
        self.settings@
    }
}

/// A finished EST client configuration, with the settings it was built from.
pub struct EstConfig {
    pub(crate) inner: EstClientConfig,
    pub(crate) settings: Ghost<EstSettings>,
}

impl View for EstConfig {
    type V = EstSettings;

    closed spec fn view(&self) -> EstSettings {
        self.settings@
    }
}

impl EstConfig {
    /// The configuration, to start the EST client with.
    pub fn into_client_config(self) -> EstClientConfig {
        self.inner
    }

    /// The configuration, for inspection.
    pub fn client_config(&self) -> &EstClientConfig {
        &self.inner
    }
}

} // verus!
