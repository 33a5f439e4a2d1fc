//! Searches: the fields of a query, the address that asks for it, and the
//! entries of its result.

use crate::client::search::entities::{ReleaseGroup, ReleaseGroupView};
use crate::entities::xpath_reader::{
    first_node_at, list_at, number_at, read_vec, views, FromXml, FromXmlElement, XPathReader,
};
use crate::entities::{base_url_of, Resource};
use crate::errors::{result_view, ReadError, ReadErrorView};
use sxd_xpath::nodeset::Node;
use crate::expression::supported;
use vstd::prelude::*;

pub mod entities;
pub mod fields;

verus! {

/// A value by which entities are searched.
pub trait SearchField {
    /// The text of the value in a query.
    spec fn text(&self) -> Seq<char>;

    /// Writes the value as it stands in a query, before it is escaped.
    fn to_string(&self) -> (r: String)
        ensures
            r@ == self.text(),
    ;
}

/// Acceptable fields searching for release groups.
pub trait ReleaseGroupSearchField: SearchField {
    /// The name of the field in a query.
    spec fn key() -> Seq<char>;

    /// The name of the field in a query, `arid` for example.
    fn name() -> (r: &'static str)
        ensures
            r@ == Self::key(),
    ;
}

/// The text `text` with every byte that cannot stand in the path or the query
/// of an address written as `%` and two hexadecimal digits.
pub uninterp spec fn percent_encoded(text: Seq<char>) -> Seq<char>;

/// `url::percent_encoding::utf8_percent_encode` with `DEFAULT_ENCODE_SET`, and
/// `to_string` on what it gives: the escaped text depends on the text alone.
#[verifier::external_body]
fn percent_encode(text: &str) -> (r: String)
    ensures
        r@ == percent_encoded(text@),
{
    url::percent_encoding::utf8_percent_encode(text, url::percent_encoding::DEFAULT_ENCODE_SET)
        .to_string()
}

/// One condition of a query: the name of the field, a colon and the escaped
/// value.
pub open spec fn query_part(param: (Seq<char>, Seq<char>)) -> Seq<char> {
    param.0 + ":"@ + percent_encoded(param.1)
}

/// The query that asks for all of `params`: its conditions in their order,
/// with ` AND ` in its escaped form between them.
pub open spec fn query_of(params: Seq<(Seq<char>, Seq<char>)>) -> Seq<char>
    decreases params.len(),
{
    if params.len() == 0 {
        Seq::empty()
    } else if params.len() == 1 {
        query_part(params[0])
    } else {
        query_of(params.drop_last()) + "%20AND%20"@ + query_part(params.last())
    }
}

/// The address of the search for the entities of the kind `name` that meet
/// `params`.
pub open spec fn search_url_of(name: Seq<char>, params: Seq<(Seq<char>, Seq<char>)>) -> Seq<char> {
    base_url_of(name) + "?query="@ + query_of(params)
}

/// The names and values that a list of parameters holds.
pub open spec fn params_view(params: Seq<(&'static str, String)>) -> Seq<(Seq<char>, Seq<char>)> {
    Seq::new(params.len(), |i: int| (params[i].0@, params[i].1@))
}

/// Collects the fields of a search for release groups and writes the address
/// that asks for them.
pub struct ReleaseGroupSearchBuilder {
    params: Vec<(&'static str, String)>,
}

impl View for ReleaseGroupSearchBuilder {
    type V = Seq<(Seq<char>, Seq<char>)>;

    closed spec fn view(&self) -> Seq<(Seq<char>, Seq<char>)> {
        params_view(self.params@)
    }
}

impl ReleaseGroupSearchBuilder {
    /// A search without conditions.
    pub fn new() -> (r: Self)
        ensures
            r@ == Seq::<(Seq<char>, Seq<char>)>::empty(),
    {
        let r = ReleaseGroupSearchBuilder { params: Vec::new() };
        assert(r@ == Seq::<(Seq<char>, Seq<char>)>::empty());
        r
    }

    /// Specify an additional parameter for the query.
    pub fn add<F: ReleaseGroupSearchField>(self, field: F) -> (r: Self)
        ensures
            r@ == self@.push((F::key(), field.text())),
    {
        let mut params = self.params;
        let ghost before = params@;
        params.push((F::name(), field.to_string()));
        let r = ReleaseGroupSearchBuilder { params };
        assert(r@ == params_view(before).push((F::key(), field.text())));
        r
    }

    /// The query of the search: what follows `?query=` in its address.
    pub fn build_query(&self) -> (r: String)
        ensures
            r@ == query_of(self@),
    {
        let mut query = String::new();
        let mut i: usize = 0;
        while i < self.params.len()
            invariant
                i <= self.params.len(),
                query@ == query_of(params_view(self.params@).take(i as int)),
            decreases self.params.len() - i,
        {
            let ghost all = params_view(self.params@);
            proof {
                assert(all.take(i + 1).drop_last() == all.take(i as int));
                assert(all.take(i + 1).last() == all[i as int]);
            }
            if i > 0 {
                query.append("%20AND%20");
            }
            query.append(self.params[i].0);
            query.append(":");
            let value = percent_encode(self.params[i].1.as_str());
            query.append(value.as_str());
            i = i + 1;
        }
        assert(params_view(self.params@).take(self.params.len() as int) == params_view(
            self.params@,
        ));
        query
    }

    /// The address that asks the web service for the release groups that meet
    /// all the conditions.
    pub fn build_url(&self) -> (r: String)
        ensures
            r@ == search_url_of(crate::entities::ReleaseGroup::name(), self@),
    {
        let mut url = crate::entities::ReleaseGroup::base_url();
        url.append("?query=");
        url.append(self.build_query().as_str());
        url
    }
}

/// One entry of the search results.
pub struct SearchEntry<E> {
    /// The returned entity.
    pub entity: E,
    /// A value from 0 to 100 indicating in percent how much this specific
    /// search result matches the search query.
    pub score: u8,
}

/// A `SearchEntry` with the view of its entity.
pub struct SearchEntryView<V> {
    pub entity: V,
    pub score: u8,
}

impl<E: View> View for SearchEntry<E> {
    type V = SearchEntryView<E::V>;

    open spec fn view(&self) -> SearchEntryView<E::V> {
        SearchEntryView { entity: self.entity@, score: self.score }
    }
}

/// The release group of an entry that is read at `root`: it is read at the
/// first list of release groups, which must be there.
pub open spec fn entry_group(root: Node) -> Result<ReleaseGroupView, ReadErrorView> {
    match first_node_at(root, ".//mb:release-group-list"@) {
        Ok(node) => ReleaseGroup::decoded(node),
        Err(e) => Err(e),
    }
}

fn read_entry_group<'d, R: XPathReader<'d>>(reader: &'d R) -> (r: Result<ReleaseGroup, ReadError>)
    ensures
        result_view(r) == entry_group(reader.root()),
{
    proof {
        assert(supported(".//mb:release-group-list"@)) by {
            reveal_strlit(".//mb:release-group-list");
        }
    }
    let list = reader.relative_reader(".//mb:release-group-list")?;
    ReleaseGroup::from_xml(&list)
}

impl FromXmlElement for SearchEntry<ReleaseGroup> {

}

impl FromXml for SearchEntry<ReleaseGroup> {
    open spec fn decoded(root: Node) -> Result<SearchEntryView<ReleaseGroupView>, ReadErrorView> {
        let entity = entry_group(root);
        let score = number_at(root, ".//mb:release-group-list/@count"@, u8::MAX as nat);
        if entity is Err {
            Err(entity->Err_0)
        } else if score is Err {
            Err(score->Err_0)
        } else {
            Ok(SearchEntryView { entity: entity->Ok_0, score: score->Ok_0 as u8 })
        }
    }

    fn from_xml<'d, R: XPathReader<'d>>(reader: &'d R) -> (r: Result<Self, ReadError>) {
        proof {
            assert(supported(".//mb:release-group-list/@count"@)) by {
                reveal_strlit(".//mb:release-group-list/@count");
            }
        }
        let entity = read_entry_group(reader)?;
        let score = reader.read_number(".//mb:release-group-list/@count", u8::MAX as u64)?;
        Ok(SearchEntry { entity, score: score as u8 })
    }
}

/// The entries of the result of a search for release groups that is read at
/// `root`: one for each `metadata` element.
pub open spec fn search_result(root: Node) -> Result<
    Seq<SearchEntryView<ReleaseGroupView>>,
    ReadErrorView,
> {
    list_at::<SearchEntry<ReleaseGroup>>(root, "//mb:metadata"@)
}

/// Reads the entries of the result of a search for release groups.
pub fn read_search_result<'d, R: XPathReader<'d>>(reader: &'d R) -> (r: Result<
    Vec<SearchEntry<ReleaseGroup>>,
    ReadError,
>)
    ensures
        match r {
            Ok(entries) => search_result(reader.root()) == Ok::<
                Seq<SearchEntryView<ReleaseGroupView>>,
                ReadErrorView,
            >(views(entries@)),
            Err(e) => search_result(reader.root()) == Err::<
                Seq<SearchEntryView<ReleaseGroupView>>,
                ReadErrorView,
            >(e@),
        },
{
    proof {
        assert(supported("//mb:metadata"@)) by {
            reveal_strlit("//mb:metadata");
        }
    }
    read_vec::<R, SearchEntry<ReleaseGroup>>(reader, "//mb:metadata")
}

} // verus!
