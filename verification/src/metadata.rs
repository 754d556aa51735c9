//! What the program writes into a token's metadata account.

use vstd::prelude::*;
use mpl_token_metadata::types::Collection;
use mpl_token_metadata::types::Uses;

verus! {

/// One creator of a token. `address` names the account whose key is
/// recorded; `share` is that creator's part of the royalties, in percent.
#[derive(Clone, Copy, Debug, PartialEq, Eq)]
pub struct CreatorShare<S> {
    pub address: S,
    pub verified: bool,
    pub share: u8,
}

/// The descriptive part of a metadata account, in the shape the token
/// metadata program takes it.
#[derive(Clone, Debug, PartialEq, Eq)]
pub struct TokenData<S> {
    pub name: String,
    pub symbol: String,
    pub uri: String,
    pub seller_fee_basis_points: u16,
    pub creators: Option<Vec<CreatorShare<S>>>,
    pub collection: Option<Collection>,
    pub uses: Option<Uses>,
}

/// The mathematical value of a [`TokenData`]: texts as sequences of
/// characters, the creators as a sequence.
pub ghost struct TokenDataView<S> {
    pub name: Seq<char>,
    pub symbol: Seq<char>,
    pub uri: Seq<char>,
    pub seller_fee_basis_points: u16,
    pub creators: Option<Seq<CreatorShare<S>>>,
    pub collection: Option<Collection>,
    pub uses: Option<Uses>,
}

impl<S> View for TokenData<S> {
    type V = TokenDataView<S>;

    open spec fn view(&self) -> TokenDataView<S> {
        TokenDataView {
            name: self.name@,
            symbol: self.symbol@,
            uri: self.uri@,
            seller_fee_basis_points: self.seller_fee_basis_points,
            creators: match self.creators {
                Some(list) => Some(list@),
                None => None,
            },
            collection: self.collection,
            uses: self.uses,
        }
    }
}

impl<S> TokenDataView<S> {
    /// Every length fits the 32-bit prefix under which the metadata program
    /// reads a text or a list. A character takes at most four bytes.
    pub open spec fn encodable(self) -> bool {
        &&& 4 * self.name.len() <= u32::MAX
        &&& 4 * self.symbol.len() <= u32::MAX
        &&& 4 * self.uri.len() <= u32::MAX
        &&& self.creators matches Some(list) ==> list.len() <= u32::MAX
    }
}

/// The one creator that every token of this program has: the account in
/// `authority`, verified, with the whole share.
pub open spec fn sole_creator<S>(authority: S) -> Seq<CreatorShare<S>> {
    seq![CreatorShare { address: authority, verified: true, share: 100 }]
}

/// The metadata of the collection token.
pub open spec fn collection_data<S>(authority: S) -> TokenDataView<S> {
    TokenDataView {
        name: "DummyCollection"@,
        symbol: "DC"@,
        uri: ""@,
        seller_fee_basis_points: 0,
        creators: Some(sole_creator(authority)),
        collection: None,
        uses: None,
    }
}

/// The metadata of a token minted into the collection.
pub open spec fn item_data<S>(authority: S) -> TokenDataView<S> {
    TokenDataView {
        name: "Mint Test"@,
        symbol: "YAY"@,
        uri: "https://arweave.net/Pe4erqz3MZoywHqntUGZoKIoH0k9QUykVDFVMjpJ08s"@,
        seller_fee_basis_points: 0,
        creators: Some(sole_creator(authority)),
        collection: None,
        uses: None,
    }
}

fn sole_creator_list<S>(authority: S) -> (list: Vec<CreatorShare<S>>)
    ensures
        list@ == sole_creator(authority),
{
    let mut list: Vec<CreatorShare<S>> = Vec::new();
    list.push(CreatorShare { address: authority, verified: true, share: 100 });
    assert(list@ =~= sole_creator(authority));
    list
}

/// Builds the metadata of the collection token, with the account in
/// `authority` as its creator.
pub fn collection_token_data<S>(authority: S) -> (data: TokenData<S>)
    ensures
        data@ == collection_data(authority),
        data@.encodable(),
{
    proof {
        reveal_strlit("DummyCollection");
        reveal_strlit("DC");
        reveal_strlit("");
    }
    TokenData {
        name: "DummyCollection".to_owned(),
        symbol: "DC".to_owned(),
        uri: "".to_owned(),
        seller_fee_basis_points: 0,
        creators: Some(sole_creator_list(authority)),
        collection: None,
        uses: None,
    }
}

/// Builds the metadata of a token minted into the collection, with the
/// account in `authority` as its creator.
pub fn item_token_data<S>(authority: S) -> (data: TokenData<S>)
    ensures
        data@ == item_data(authority),
        data@.encodable(),
{
    proof {
        reveal_strlit("Mint Test");
        reveal_strlit("YAY");
        reveal_strlit("https://arweave.net/Pe4erqz3MZoywHqntUGZoKIoH0k9QUykVDFVMjpJ08s");
    }
    TokenData {
        name: "Mint Test".to_owned(),
        symbol: "YAY".to_owned(),
        uri: "https://arweave.net/Pe4erqz3MZoywHqntUGZoKIoH0k9QUykVDFVMjpJ08s".to_owned(),
        seller_fee_basis_points: 0,
        creators: Some(sole_creator_list(authority)),
        collection: None,
        uses: None,
    }
}

} // verus!
