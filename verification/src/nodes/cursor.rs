//! What the nodes that read documents share: they gather no more documents than their limit, and
//! give back no more bytes than their bound, so that a result fits a frame of the host.
use vstd::prelude::*;

use crate::bson::Document;
use crate::bson::document_tree;
use crate::calls::json_bytes;
use crate::calls::write_json;
use crate::collect::collected;
use crate::i18n::Locale;
use crate::i18n::caused;
use crate::i18n::message;
use crate::i18n::message_of;
use crate::i18n::said;
use crate::json::FieldViews;
use crate::json::all_stable;
use crate::json::all_tame;
use crate::json::any_non_finite;
use crate::json::as_array;
use crate::json::docs_json;
use crate::json::docs_to_json_array;
use crate::json::document_trees;
use crate::json::non_finite_message;
use crate::json::refused_when_held;
use crate::json::stable_docs_json;
use crate::json::viewed_json;
use crate::outside::json_to_outside;
use crate::result::Report;
use crate::result::ReportView;
use crate::value::Json;
use crate::value::JsonView;

verus! {

/// Documents gathered from a cursor, fewer than the limit.
pub struct Gathering {
    limit: i64,
    docs: Vec<Document>,
}

/// What a gathering holds.
#[verifier::ext_equal]
pub struct GatheringView {
    pub limit: i64,
    pub docs: Seq<FieldViews>,
}

impl View for Gathering {
    type V = GatheringView;

    closed spec fn view(&self) -> GatheringView {
        GatheringView { limit: self.limit, docs: document_trees(self.docs@) }
    }
}

/// A gathering after a document came in: one that goes on, or the documents of one that is full.
pub enum Taken {
    More(Gathering),
    Full(Vec<Document>),
}

/// What a gathering is after a document came in.
pub enum TakenView {
    More(GatheringView),
    Full(Seq<FieldViews>),
}

impl View for Taken {
    type V = TakenView;

    open spec fn view(&self) -> TakenView {
        match self {
            Taken::More(gathering) => TakenView::More(gathering@),
            Taken::Full(docs) => TakenView::Full(document_trees(docs@)),
        }
    }
}

/// A gathering that takes in a document is full once it has as many as its limit.
pub open spec fn taken(gathering: GatheringView, doc: FieldViews) -> TakenView {
    let docs = gathering.docs.push(doc);
    if docs.len() >= gathering.limit {
        TakenView::Full(docs)
    } else {
        TakenView::More(GatheringView { limit: gathering.limit, docs })
    }
}

impl Gathering {
    #[verifier::type_invariant]
    spec fn is_not_full(self) -> bool {
        self.docs@.len() < self.limit
    }

    /// A gathering of at most `limit` documents.
    pub fn new(limit: i64) -> (gathering: Gathering)
        requires
            limit > 0,
        ensures
            gathering@ == (GatheringView { limit, docs: Seq::empty() }),
    {
        let gathering = Gathering { limit, docs: Vec::new() };
        assert(gathering@.docs =~= Seq::empty());
        gathering
    }

    /// Takes in a document.
    pub fn take(self, doc: Document) -> (r: Taken)
        ensures
            r@ == taken(self@, document_tree(doc)),
            r matches Taken::Full(docs) ==> docs@.len() == self@.limit,
    {
        proof {
            use_type_invariant(&self);
        }
        let ghost before = self.docs@;
        let limit: i64 = self.limit;
        let mut docs: Vec<Document> = self.docs;
        docs.push(doc);
        assert(document_trees(docs@) =~= document_trees(before).push(document_tree(doc)));
        if docs.len() as u64 >= limit as u64 {
            Taken::Full(docs)
        } else {
            Taken::More(Gathering { limit, docs })
        }
    }

    /// The documents, fewer than the limit.
    pub fn into_docs(self) -> (docs: Vec<Document>)
        ensures
            document_trees(docs@) == self@.docs,
            docs@.len() < self@.limit,
    {
        proof {
            use_type_invariant(&self);
        }
        self.docs
    }
}

/// Where a node that reads stands after an answer of the driver: it reads on, or is done.
pub enum Progress {
    More(Gathering),
    Done(Report),
}

/// Where a node that reads stands, by what it holds.
pub enum ProgressView {
    More(GatheringView),
    Done(ReportView),
}

impl View for Progress {
    type V = ProgressView;

    open spec fn view(&self) -> ProgressView {
        match self {
            Progress::More(gathering) => ProgressView::More(gathering@),
            Progress::Done(report) => ProgressView::Done(report@),
        }
    }
}

/// What is gathered of the documents that a cursor gives.
pub open spec fn gathered(gathering: GatheringView, given: Seq<FieldViews>) -> Seq<FieldViews>
    decreases given.len(),
{
    if given.len() == 0 {
        gathering.docs
    } else {
        match taken(gathering, given[0]) {
            TakenView::Full(docs) => docs,
            TakenView::More(more) => gathered(more, given.drop_first()),
        }
    }
}

/// The first documents of some: as many as a limit, or all where there are fewer.
pub open spec fn first_of(given: Seq<FieldViews>, limit: i64) -> Seq<FieldViews> {
    if given.len() <= limit {
        given
    } else {
        given.take(limit as int)
    }
}

/// What is gathered of a cursor are its first documents, in their order: as many as the limit, or
/// all where there are fewer.
pub proof fn law_the_first_documents_are_gathered(limit: i64, given: Seq<FieldViews>)
    requires
        limit > 0,
    ensures
        gathered(GatheringView { limit, docs: Seq::empty() }, given) == first_of(given, limit),
{
    lemma_gathered(GatheringView { limit, docs: Seq::empty() }, given);
    assert(Seq::empty() + given =~= given);
}

/// What a gathering that has some documents comes to.
proof fn lemma_gathered(gathering: GatheringView, given: Seq<FieldViews>)
    requires
        gathering.docs.len() < gathering.limit,
    ensures
        gathered(gathering, given) == if gathering.docs.len() + given.len() <= gathering.limit {
            gathering.docs + given
        } else {
            (gathering.docs + given).take(gathering.limit as int)
        },
    decreases given.len(),
{
    if given.len() == 0 {
        assert(gathering.docs + given =~= gathering.docs);
    } else {
        let rest = given.drop_first();
        let docs = gathering.docs.push(given[0]);
        assert(docs + rest =~= gathering.docs + given);
        if docs.len() < gathering.limit {
            lemma_gathered(GatheringView { limit: gathering.limit, docs }, rest);
        } else {
            assert((gathering.docs + given).take(gathering.limit as int) =~= docs);
            if rest.len() == 0 {
                assert(gathering.docs + given =~= docs);
            }
        }
    }
}

/// Whether a result has at most so many bytes, given what writing it came to.
pub open spec fn size_verdict(
    written: Result<Seq<u8>, Seq<char>>,
    most: usize,
    chinese: bool,
) -> Result<(), Seq<char>> {
    match written {
        Ok(bytes) => if bytes.len() > most {
            Err(said("结果过大，请减小 limit"@, "Result too large; reduce the limit"@, chinese))
        } else {
            Ok(())
        },
        Err(err) => Err(
            caused(said("结果序列化失败"@, "Failed to serialize results"@, chinese), err),
        ),
    }
}

/// Refuses a result that has more than `most` bytes, or that could not be written.
pub fn check_size(written: Result<Vec<u8>, String>, most: usize, locale: &Locale) -> (r: Result<
    (),
    String,
>)
    ensures
        size_verdict(
            match written {
                Ok(bytes) => Ok(bytes@),
                Err(err) => Err(err@),
            },
            most,
            locale.chinese(),
        ) == match r {
            Ok(()) => Ok(()),
            Err(err) => Err(err@),
        },
{
    match written {
        Ok(bytes) => {
            if bytes.len() > most {
                return Err(
                    message("结果过大，请减小 limit", "Result too large; reduce the limit", locale),
                );
            }
            Ok(())
        },
        Err(err) => Err(
            message_of("结果序列化失败", "Failed to serialize results", err.as_str(), locale),
        ),
    }
}

/// The JSON of a result, where it could be made and has at most so many bytes.
pub open spec fn fitting(
    array: Result<JsonView, Seq<char>>,
    most: usize,
    chinese: bool,
) -> Result<JsonView, Seq<char>> {
    match array {
        Ok(array) => match size_verdict(json_bytes(array), most, chinese) {
            Ok(_) => Ok(array),
            Err(err) => Err(err),
        },
        Err(err) => Err(err),
    }
}

/// The JSON array of some documents, where they can be written and it has at most so many bytes.
pub open spec fn array_of(docs: Seq<FieldViews>, most: usize, chinese: bool) -> Result<
    JsonView,
    Seq<char>,
> {
    fitting(as_array(collected(docs_json(docs, chinese))), most, chinese)
}

/// Writes documents as a JSON array that has at most `most` bytes.
pub fn bounded_array(docs: &Vec<Document>, most: usize, locale: &Locale) -> (r: Result<
    Json,
    String,
>)
    ensures
        viewed_json(r) == array_of(document_trees(docs@), most, locale.chinese()),
        all_stable(document_trees(docs@)) ==> viewed_json(r) == fitting(
            as_array(collected(stable_docs_json(document_trees(docs@), locale.chinese()))),
            most,
            locale.chinese(),
        ),
        all_tame(document_trees(docs@)) ==> refused_when_held(
            as_array(collected(docs_json(document_trees(docs@), locale.chinese()))),
            any_non_finite(document_trees(docs@)),
            locale.chinese(),
        ),
        all_tame(document_trees(docs@)) && any_non_finite(document_trees(docs@)) ==> viewed_json(r)
            == Err::<JsonView, Seq<char>>(non_finite_message(locale.chinese())),
{
    match docs_to_json_array(docs.as_slice(), locale) {
        Ok(array) => match check_size(write_json(&json_to_outside(&array)), most, locale) {
            Ok(()) => Ok(array),
            Err(err) => Err(err),
        },
        Err(err) => Err(err),
    }
}

} // verus!
