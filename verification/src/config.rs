//! Connection, queue and quality-of-service configuration carried from the
//! host binding layer to the engine.

use vstd::prelude::*;

verus! {

/// Queue and exchange names the engine works with.
#[derive(Debug)]
pub struct ConfigOptions {
    pub queue_name: String,
    pub rpc_exchange_name: String,
    pub rpc_queue_name: String,
}

/// The mathematical value of a [`ConfigOptions`].
pub struct ConfigOptionsView {
    pub queue_name: Seq<char>,
    pub rpc_exchange_name: Seq<char>,
    pub rpc_queue_name: Seq<char>,
}

impl View for ConfigOptions {
    type V = ConfigOptionsView;

    open spec fn view(&self) -> ConfigOptionsView {
        ConfigOptionsView {
            queue_name: self.queue_name@,
            rpc_exchange_name: self.rpc_exchange_name@,
            rpc_queue_name: self.rpc_queue_name@,
        }
    }
}

impl Clone for ConfigOptions {
    /// The copy names the same queues and exchange.
    fn clone(&self) -> (r: Self)
        ensures
            r@ == self@,
    {
        ConfigOptions {
            queue_name: self.queue_name.clone(),
            rpc_exchange_name: self.rpc_exchange_name.clone(),
            rpc_queue_name: self.rpc_queue_name.clone(),
        }
    }
}

impl ConfigOptions {
    /// Bundle the three names.
    pub fn new(queue_name: String, rpc_exchange_name: String, rpc_queue_name: String) -> (r:
        ConfigOptions)
        ensures
            r@.queue_name == queue_name@,
            r@.rpc_exchange_name == rpc_exchange_name@,
            r@.rpc_queue_name == rpc_queue_name@,
    {
        ConfigOptions { queue_name, rpc_exchange_name, rpc_queue_name }
    }
}

/// What the bridge logic reads of a TLS connector: the target domain name.
/// The connector handle itself is opaque configuration, built by the host
/// layer from certificate and key material and forwarded to the engine at
/// connect time.
#[derive(Debug)]
pub struct TlsAdaptor {
    pub domain: String,
}

/// The mathematical value of a [`TlsAdaptor`].
pub struct TlsAdaptorView {
    pub domain: Seq<char>,
}

impl View for TlsAdaptor {
    type V = TlsAdaptorView;

    open spec fn view(&self) -> TlsAdaptorView {
        TlsAdaptorView { domain: self.domain@ }
    }
}

impl Clone for TlsAdaptor {
    /// The copy names the same domain.
    fn clone(&self) -> (r: Self)
        ensures
            r@ == self@,
    {
        TlsAdaptor { domain: self.domain.clone() }
    }
}

impl TlsAdaptor {
    /// Record the domain the connector was built for.
    pub fn new(domain: String) -> (r: TlsAdaptor)
        ensures
            r@.domain == domain@,
    {
        TlsAdaptor { domain }
    }
}

/// Connection parameters for the engine.
#[derive(Debug)]
pub struct Config {
    pub host: String,
    pub port: u16,
    pub username: String,
    pub password: String,
    pub virtual_host: String,
    pub options: ConfigOptions,
    pub tls_adaptor: Option<TlsAdaptor>,
}

/// The mathematical value of a [`Config`].
pub struct ConfigView {
    pub host: Seq<char>,
    pub port: u16,
    pub username: Seq<char>,
    pub password: Seq<char>,
    pub virtual_host: Seq<char>,
    pub options: ConfigOptionsView,
    pub tls_adaptor: Option<TlsAdaptorView>,
}

impl View for Config {
    type V = ConfigView;

    open spec fn view(&self) -> ConfigView {
        ConfigView {
            host: self.host@,
            port: self.port,
            username: self.username@,
            password: self.password@,
            virtual_host: self.virtual_host@,
            options: self.options@,
            tls_adaptor: match self.tls_adaptor {
                Some(t) => Some(t@),
                None => None,
            },
        }
    }
}

impl Config {
    /// Bundle the connection parameters; every field is carried unchanged.
    pub fn new(
        host: String,
        port: u16,
        username: String,
        password: String,
        virtual_host: String,
        options: ConfigOptions,
        tls_adaptor: Option<TlsAdaptor>,
    ) -> (r: Config)
        ensures
            r@.host == host@,
            r@.port == port,
            r@.username == username@,
            r@.password == password@,
            r@.virtual_host == virtual_host@,
            r@.options == options@,
            r@.tls_adaptor == (match tls_adaptor {
                Some(t) => Some(t@),
                None => None::<TlsAdaptorView>,
            }),
    {
        Config { host, port, username, password, virtual_host, options, tls_adaptor }
    }
}

/// Quality-of-service switches for the engine's channels: publisher
/// confirms, acknowledgement modes and prefetch windows.
#[derive(Clone, Copy, Debug, PartialEq, Eq, Structural)]
pub struct QoSConfig {
    pub pub_confirm: bool,
    pub rpc_client_confirm: bool,
    pub rpc_server_confirm: bool,
    pub sub_auto_ack: bool,
    pub rpc_server_auto_ack: bool,
    pub rpc_client_auto_ack: bool,
    pub sub_prefetch: Option<u16>,
    pub rpc_server_prefetch: Option<u16>,
    pub rpc_client_prefetch: Option<u16>,
}

impl QoSConfig {
    /// Bundle the nine switches; every field is carried unchanged.
    pub fn new(
        pub_confirm: bool,
        rpc_client_confirm: bool,
        rpc_server_confirm: bool,
        sub_auto_ack: bool,
        rpc_server_auto_ack: bool,
        rpc_client_auto_ack: bool,
        sub_prefetch: Option<u16>,
        rpc_server_prefetch: Option<u16>,
        rpc_client_prefetch: Option<u16>,
    ) -> (r: QoSConfig)
        ensures
            r == (QoSConfig {
                pub_confirm,
                rpc_client_confirm,
                rpc_server_confirm,
                sub_auto_ack,
                rpc_server_auto_ack,
                rpc_client_auto_ack,
                sub_prefetch,
                rpc_server_prefetch,
                rpc_client_prefetch,
            }),
    {
        QoSConfig {
            pub_confirm,
            rpc_client_confirm,
            rpc_server_confirm,
            sub_auto_ack,
            rpc_server_auto_ack,
            rpc_client_auto_ack,
            sub_prefetch,
            rpc_server_prefetch,
            rpc_client_prefetch,
        }
    }
}

impl Default for QoSConfig {
    /// Publisher and RPC-client confirms on, everything else off, no
    /// prefetch windows.
    fn default() -> (r: Self)
        ensures
            r == (QoSConfig {
                pub_confirm: true,
                rpc_client_confirm: true,
                rpc_server_confirm: false,
                sub_auto_ack: false,
                rpc_server_auto_ack: false,
                rpc_client_auto_ack: false,
                sub_prefetch: None,
                rpc_server_prefetch: None,
                rpc_client_prefetch: None,
            }),
    {
        QoSConfig {
            pub_confirm: true,
            rpc_client_confirm: true,
            rpc_server_confirm: false,
            sub_auto_ack: false,
            rpc_server_auto_ack: false,
            rpc_client_auto_ack: false,
            sub_prefetch: None,
            rpc_server_prefetch: None,
            rpc_client_prefetch: None,
        }
    }
}

} // verus!
