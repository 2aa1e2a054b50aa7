use vstd::prelude::*;
use vstd::string::*;
use crate::page::{
    found, found_upto, lemma_found_exact, query_holds, texts, texts_of, find, Page, Pred, PredView, Query, QueryView,
};

verus! {

/// One item of output: the fields read from a detail page.
#[derive(Clone, Debug, PartialEq)]
pub struct Record {
    pub name: String,
    pub types: Vec<String>,
    pub species: String,
    pub height: String,
    pub weight: String,
}

pub struct RecordView {
    pub name: Seq<char>,
    pub types: Seq<Seq<char>>,
    pub species: Seq<char>,
    pub height: Seq<char>,
    pub weight: Seq<char>,
}

impl View for Record {
    type V = RecordView;

    open spec fn view(&self) -> RecordView {
        RecordView {
            name: self.name@,
            types: self.types@.map_values(|t: String| t@),
            species: self.species@,
            height: self.height@,
            weight: self.weight@,
        }
    }
}

/// A required field of a record.
#[derive(Clone, Copy, Debug, PartialEq, Eq, Structural)]
pub enum Field {
    Name,
    Species,
    Height,
    Weight,
}

/// Why a run stopped.
#[derive(Clone, Copy, Debug, PartialEq, Eq, Structural)]
pub enum ScrapeError {
    /// The transport could not fetch a page.
    Transport,
    /// A fetched payload could not be parsed.
    Parse,
    /// A listing entry carries no link.
    MissingLink,
    /// The extraction plan could not locate a required field.
    MissingField(Field),
    /// A record could not be encoded.
    Serialization,
}

/// The heading that carries the item's name.
pub open spec fn heading_query() -> QueryView {
    QueryView::Is(PredView::Name("h1"@))
}

/// The type badges inside the vitals table.
pub open spec fn type_query() -> QueryView {
    QueryView::Within(PredView::Class("vitals-table"@), PredView::Class("type-icon"@))
}

/// The cells of the vitals table.
pub open spec fn cell_query() -> QueryView {
    QueryView::Within(PredView::Class("vitals-table"@), PredView::Name("td"@))
}

pub open spec fn text_at(page: Page, i: usize) -> Seq<char> {
    page.nodes@[i as int].text@
}

/// The extraction plan: the first heading gives the name; the type badges of
/// the vitals table give the types; of the vitals table's cells, the first two
/// are skipped and the next three give species, height and weight.
pub open spec fn extraction(page: Page) -> Result<RecordView, Field> {
    let heads = found(page, heading_query());
    let cells = found(page, cell_query());
    if heads.len() == 0 {
        Err(Field::Name)
    } else if cells.len() < 3 {
        Err(Field::Species)
    } else if cells.len() < 4 {
        Err(Field::Height)
    } else if cells.len() < 5 {
        Err(Field::Weight)
    } else {
        Ok(
            RecordView {
                name: text_at(page, heads[0]),
                types: texts_of(page, found(page, type_query())),
                species: text_at(page, cells[2]),
                height: text_at(page, cells[3]),
                weight: text_at(page, cells[4]),
            },
        )
    }
}

pub open spec fn extraction_result(page: Page, r: Result<Record, ScrapeError>) -> bool {
    match extraction(page) {
        Ok(v) => r matches Ok(rec) && rec@ == v,
        Err(f) => r == Err::<Record, ScrapeError>(ScrapeError::MissingField(f)),
    }
}

/// Applies the extraction plan to a detail page.
pub fn extract(page: &Page) -> (r: Result<Record, ScrapeError>)
    ensures
        extraction_result(*page, r),
{
    let count: usize = page.nodes.len();
    proof {
        lemma_found_exact(*page, heading_query(), count as int);
        lemma_found_exact(*page, type_query(), count as int);
        lemma_found_exact(*page, cell_query(), count as int);
    }
    let vitals = String::from_str("vitals-table");
    let heads = find(page, &Query::Is(Pred::Name(String::from_str("h1"))));
    if heads.len() == 0 {
        return Err(ScrapeError::MissingField(Field::Name));
    }
    let cells = find(page, &Query::Within(Pred::Class(vitals.clone()), Pred::Name(String::from_str("td"))));
    if cells.len() < 3 {
        return Err(ScrapeError::MissingField(Field::Species));
    }
    if cells.len() < 4 {
        return Err(ScrapeError::MissingField(Field::Height));
    }
    if cells.len() < 5 {
        return Err(ScrapeError::MissingField(Field::Weight));
    }
    let badges = find(page, &Query::Within(Pred::Class(vitals), Pred::Class(String::from_str("type-icon"))));
    let types = texts(page, &badges);
    let rec = Record {
        name: page.nodes[heads[0]].text.clone(),
        types,
        species: page.nodes[cells[2]].text.clone(),
        height: page.nodes[cells[3]].text.clone(),
        weight: page.nodes[cells[4]].text.clone(),
    };
    assert(rec@.types =~= texts_of(*page, badges@));
    Ok(rec)
}


/// A detail page whose vitals table holds fewer than five cells yields no
/// record: extraction fails on a missing field.
pub proof fn lemma_short_table_fails(page: Page)
    requires
        found(page, cell_query()).len() < 5,
    ensures
        extraction(page) matches Err(_),
{
}

/// The types of an extracted record are the texts of the type badges that lie
/// inside the vitals table, every such badge once, in document order, and no
/// other node.
pub proof fn lemma_types_in_order(page: Page)
    requires
        page.len() <= usize::MAX,
        extraction(page) matches Ok(_),
    ensures
        ({
            let ix = found(page, type_query());
            &&& extraction(page)->Ok_0.types == texts_of(page, ix)
            &&& forall|k: int|
                0 <= k < ix.len() ==> query_holds(page, type_query(), #[trigger] ix[k] as int)
            &&& forall|k1: int, k2: int| 0 <= k1 < k2 < ix.len() ==> #[trigger] ix[k1] < #[trigger] ix[k2]
            &&& forall|i: int|
                0 <= i < page.len() && #[trigger] query_holds(page, type_query(), i) ==> exists|k: int|
                    0 <= k < ix.len() && ix[k] == i
        }),
{
    lemma_found_exact(page, type_query(), page.len());
}

} // verus!
