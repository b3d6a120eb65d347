//! The records that travel through the service: the configuration loaded at
//! start, the state handed to each request, and the catalog's line item.

use vstd::prelude::*;

verus! {

/// The configuration, built once at start and only read afterwards.
#[derive(Clone, Debug)]
pub struct ShopConfigurations {
    pub host: String,
    pub port: String,
    /// The program identifier, in base-58 text.
    pub program_id: String,
    /// The cluster selector: `localnet`, `devnet`, `custom`, or anything else
    /// for the default cluster.
    pub cluster: String,
    /// Read only when the selector is `custom`.
    pub cluster_url: String,
    /// Read only when the selector is `custom`.
    pub cluster_ws_url: String,
    /// Raw bytes of the key pair that pays for and authorizes transactions.
    pub payer_key_pair_bytes: [u8; 64],
    /// Raw bytes of the key pair that names the catalog account.
    pub account_key_pair_bytes: [u8; 64],
}

/// What a request handler is given: a reference to the shared configuration.
#[derive(Debug)]
pub struct ShopState<'a> {
    pub shop_configurations: &'a ShopConfigurations,
}

/// A catalog line item.
#[derive(Clone, Debug, PartialEq, Eq)]
pub struct Good {
    pub id: u64,
    pub name: String,
    pub image: String,
    pub price: u64,
}

/// A line item as a mathematical value.
pub struct GoodView {
    pub id: u64,
    pub name: Seq<char>,
    pub image: Seq<char>,
    pub price: u64,
}

impl View for Good {
    type V = GoodView;

    open spec fn view(&self) -> GoodView {
        GoodView { id: self.id, name: self.name@, image: self.image@, price: self.price }
    }
}

impl Good {
    /// A second value with the same contents.
    pub fn duplicate(&self) -> (copy: Good)
        ensures
            copy@ == self@,
    {
        Good { id: self.id, name: self.name.clone(), image: self.image.clone(), price: self.price }
    }
}

/// A snapshot of the catalog as a sequence of mathematical line items.
pub open spec fn catalog_view(goods: Seq<Good>) -> Seq<GoodView> {
    goods.map_values(|g: Good| g@)
}

} // verus!
