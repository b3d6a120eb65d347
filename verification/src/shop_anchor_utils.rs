//! From a configuration to a program handle: which cluster to talk to, who
//! pays, and which program is addressed.
//!
//! The handle is a plain record. Opening connections is left to whoever
//! holds the record; nothing here touches the network.

use crate::errors::ConfigError;
use crate::modals::ShopConfigurations;
use crate::shop_solana_utils::{
    is_key_pair,
    keypair_from_bytes,
    program_id_of_text,
    try_get_program_id,
    ProgramId,
    SigningKey,
};
use vstd::prelude::*;
use vstd::string::StringExecFns;

verus! {

/// The cluster that a client connects to.
#[derive(Clone, Debug, PartialEq, Eq)]
pub enum Cluster {
    /// The well-known local test cluster.
    Localnet,
    /// The well-known development cluster.
    Devnet,
    /// A cluster given by its RPC URL and its event stream URL.
    Custom(String, String),
    /// Whatever cluster the client library connects to when told nothing.
    ClientDefault,
}

pub enum ClusterView {
    Localnet,
    Devnet,
    Custom(Seq<char>, Seq<char>),
    ClientDefault,
}

impl View for Cluster {
    type V = ClusterView;

    open spec fn view(&self) -> ClusterView {
        match *self {
            Cluster::Localnet => ClusterView::Localnet,
            Cluster::Devnet => ClusterView::Devnet,
            Cluster::Custom(url, ws_url) => ClusterView::Custom(url@, ws_url@),
            Cluster::ClientDefault => ClusterView::ClientDefault,
        }
    }
}

/// How far a transaction must have come before a call counts as done.
#[derive(Clone, Copy, Debug, PartialEq, Eq)]
pub enum Commitment {
    Processed,
    Confirmed,
    Finalized,
}

/// A client bound to a cluster and to the key pair that pays.
#[derive(Clone, Debug)]
pub struct Client {
    pub cluster: Cluster,
    pub payer: SigningKey,
    pub commitment: Commitment,
}

/// A client addressed at one program.
#[derive(Clone, Debug)]
pub struct Program {
    pub program_id: ProgramId,
    pub cluster: Cluster,
    pub payer: SigningKey,
    pub commitment: Commitment,
}

/// The cluster that a selector and a pair of URLs stand for.
pub open spec fn selected_cluster(
    selector: Seq<char>,
    url: Seq<char>,
    ws_url: Seq<char>,
) -> ClusterView {
    if selector == "localnet"@ {
        ClusterView::Localnet
    } else if selector == "devnet"@ {
        ClusterView::Devnet
    } else if selector == "custom"@ {
        ClusterView::Custom(url, ws_url)
    } else {
        ClusterView::ClientDefault
    }
}

/// The cluster that a configuration selects.
pub open spec fn cluster_of(shop_configurations: ShopConfigurations) -> ClusterView {
    selected_cluster(
        shop_configurations.cluster@,
        shop_configurations.cluster_url@,
        shop_configurations.cluster_ws_url@,
    )
}

/// The pair of URLs that a cluster spells out itself. The named clusters
/// spell none: their endpoints are the client library's.
pub open spec fn explicit_endpoint(cluster: ClusterView) -> Option<(Seq<char>, Seq<char>)> {
    match cluster {
        ClusterView::Custom(url, ws_url) => Some((url, ws_url)),
        _ => None,
    }
}

fn text_is(text: &String, word: &str) -> (same: bool)
    ensures
        same == (text@ == word@),
{
    let word = String::from_str(word);
    *text == word
}

/// Picks the cluster that the configuration selects.
pub fn get_cluster(shop_configurations: &ShopConfigurations) -> (cluster: Cluster)
    ensures
        cluster@ == cluster_of(*shop_configurations),
{
    let selector = &shop_configurations.cluster;
    if text_is(selector, "localnet") {
        Cluster::Localnet
    } else if text_is(selector, "devnet") {
        Cluster::Devnet
    } else if text_is(selector, "custom") {
        Cluster::Custom(
            shop_configurations.cluster_url.clone(),
            shop_configurations.cluster_ws_url.clone(),
        )
    } else {
        Cluster::ClientDefault
    }
}

/// Binds a cluster and a payer into a client. Calls made through it count as
/// done once they are processed.
pub fn configure_and_get_client(cluster: Cluster, payer_key_pair: SigningKey) -> (client: Client)
    ensures
        client.cluster == cluster,
        client.payer == payer_key_pair,
        client.commitment == Commitment::Processed,
{
    Client { cluster, payer: payer_key_pair, commitment: Commitment::Processed }
}

impl Client {
    /// Addresses the client at a program.
    pub fn program(self, program_id: ProgramId) -> (program: Program)
        ensures
            program.program_id == program_id,
            program.cluster == self.cluster,
            program.payer == self.payer,
            program.commitment == self.commitment,
    {
        Program {
            program_id,
            cluster: self.cluster,
            payer: self.payer,
            commitment: self.commitment,
        }
    }
}

/// Whether a program handle can be built from the configuration: the program
/// identifier decodes, and the payer bytes are a key pair.
pub open spec fn usable(shop_configurations: ShopConfigurations) -> bool {
    &&& program_id_of_text(shop_configurations.program_id@) is Some
    &&& is_key_pair(shop_configurations.payer_key_pair_bytes@)
}

/// Whether `program` is the handle that the configuration describes.
pub open spec fn describes(shop_configurations: ShopConfigurations, program: Program) -> bool {
    &&& program_id_of_text(shop_configurations.program_id@) == Some(program.program_id@)
    &&& program.cluster@ == cluster_of(shop_configurations)
    &&& program.payer@ == shop_configurations.payer_key_pair_bytes@
    &&& program.commitment == Commitment::Processed
}

/// Builds the program handle that a configuration describes.
///
/// Fails with `BadProgramId` where the program identifier does not decode,
/// and with `BadKeyMaterial` where it does but the payer bytes are no key
/// pair. A new handle is built on every call.
pub fn try_get_program(shop_configurations: &ShopConfigurations) -> (program: Result<
    Program,
    ConfigError,
>)
    ensures
        program is Ok <==> usable(*shop_configurations),
        program matches Ok(built) ==> describes(*shop_configurations, built),
        program matches Err(e) ==> (e is BadProgramId <==> program_id_of_text(
            shop_configurations.program_id@,
        ) is None),
{
    let program_id = match try_get_program_id(shop_configurations.program_id.as_str()) {
        Ok(program_id) => program_id,
        Err(e) => {
            return Err(ConfigError::BadProgramId(e.0));
        },
    };
    let cluster = get_cluster(shop_configurations);
    let payer_key_pair = match keypair_from_bytes(
        shop_configurations.payer_key_pair_bytes.as_slice(),
    ) {
        Ok(payer_key_pair) => payer_key_pair,
        Err(e) => {
            return Err(ConfigError::BadKeyMaterial(e.0));
        },
    };
    let client = configure_and_get_client(cluster, payer_key_pair);
    Ok(client.program(program_id))
}

/// The handle built from a configuration connects to the cluster that the
/// selector names: with `custom`, to exactly the configuration's two URLs.
pub proof fn lemma_custom_handle_endpoint(shop_configurations: ShopConfigurations, program: Program)
    requires
        describes(shop_configurations, program),
        shop_configurations.cluster@ == "custom"@,
    ensures
        explicit_endpoint(program.cluster@) == Some(
            (shop_configurations.cluster_url@, shop_configurations.cluster_ws_url@),
        ),
{
    lemma_cluster_by_selector(shop_configurations);
}

/// With the selector `custom`, the cluster of a configuration spells out
/// exactly the configuration's two URLs. With `localnet` or `devnet` it is
/// the cluster of that name, and with any other selector it is the client
/// library's default.
pub proof fn lemma_cluster_by_selector(shop_configurations: ShopConfigurations)
    ensures
        shop_configurations.cluster@ == "custom"@ ==> explicit_endpoint(
            cluster_of(shop_configurations),
        ) == Some((shop_configurations.cluster_url@, shop_configurations.cluster_ws_url@)),
        shop_configurations.cluster@ == "localnet"@ ==> cluster_of(shop_configurations)
            == ClusterView::Localnet,
        shop_configurations.cluster@ == "devnet"@ ==> cluster_of(shop_configurations)
            == ClusterView::Devnet,
        shop_configurations.cluster@ != "custom"@ && shop_configurations.cluster@ != "localnet"@
            && shop_configurations.cluster@ != "devnet"@ ==> cluster_of(shop_configurations)
            == ClusterView::ClientDefault,
{
    reveal_strlit("localnet");
    reveal_strlit("devnet");
    reveal_strlit("custom");
    assert("localnet"@.len() == 8);
    assert("devnet"@.len() == 6);
    assert("custom"@.len() == 6);
    assert("devnet"@[0] == 'd');
    assert("custom"@[0] == 'c');
}

} // verus!
