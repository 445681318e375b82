//! The commands of the `puddle` program and the arguments of each, with
//! their mathematical views (texts as character sequences).

use crate::cli::scan::texts;
use crate::cli::values::{opt_text, CliPage};
use crate::models::common::CollectionScope;
use crate::models::raindrops::RaindropId;
use crate::pagination::PerPage;
use vstd::prelude::*;

verus! {

#[derive(Debug, Clone, PartialEq, Eq)]
pub struct ListArgs {
    pub collection: Option<CollectionScope>,
    pub search: Option<String>,
    pub sort: Option<String>,
    pub page: Option<CliPage>,
    pub per_page: Option<PerPage>,
    pub nested: bool,
}

pub struct ListArgsV {
    pub collection: Option<CollectionScope>,
    pub search: Option<Seq<char>>,
    pub sort: Option<Seq<char>>,
    pub page: Option<CliPage>,
    pub per_page: Option<PerPage>,
    pub nested: bool,
}

impl View for ListArgs {
    type V = ListArgsV;

    open spec fn view(&self) -> ListArgsV {
        ListArgsV {
            collection: self.collection,
            search: opt_text(self.search),
            sort: opt_text(self.sort),
            page: self.page,
            per_page: self.per_page,
            nested: self.nested,
        }
    }
}

#[derive(Debug, Clone, Copy, PartialEq, Eq, Structural)]
pub struct GetArgs {
    pub id: RaindropId,
}

#[derive(Debug, Clone, PartialEq, Eq)]
pub struct CreateArgs {
    pub link: String,
    pub title: Option<String>,
    pub excerpt: Option<String>,
    pub tags: Vec<String>,
    pub collection: Option<CollectionScope>,
}

pub struct CreateArgsV {
    pub link: Seq<char>,
    pub title: Option<Seq<char>>,
    pub excerpt: Option<Seq<char>>,
    pub tags: Seq<Seq<char>>,
    pub collection: Option<CollectionScope>,
}

impl View for CreateArgs {
    type V = CreateArgsV;

    open spec fn view(&self) -> CreateArgsV {
        CreateArgsV {
            link: self.link@,
            title: opt_text(self.title),
            excerpt: opt_text(self.excerpt),
            tags: texts(self.tags@),
            collection: self.collection,
        }
    }
}

#[derive(Debug, Clone, PartialEq, Eq)]
pub struct UpdateArgs {
    pub id: RaindropId,
    pub title: Option<String>,
    pub excerpt: Option<String>,
    pub tags: Vec<String>,
    pub collection: Option<CollectionScope>,
}

pub struct UpdateArgsV {
    pub id: RaindropId,
    pub title: Option<Seq<char>>,
    pub excerpt: Option<Seq<char>>,
    pub tags: Seq<Seq<char>>,
    pub collection: Option<CollectionScope>,
}

impl View for UpdateArgs {
    type V = UpdateArgsV;

    open spec fn view(&self) -> UpdateArgsV {
        UpdateArgsV {
            id: self.id,
            title: opt_text(self.title),
            excerpt: opt_text(self.excerpt),
            tags: texts(self.tags@),
            collection: self.collection,
        }
    }
}

#[derive(Debug, Clone, Copy, PartialEq, Eq, Structural)]
pub struct DeleteArgs {
    pub id: RaindropId,
}

#[derive(Debug, Clone, PartialEq, Eq)]
pub struct UploadFileArgs {
    pub path: String,
}

#[derive(Debug, Clone, PartialEq, Eq)]
pub struct UploadCoverArgs {
    pub id: RaindropId,
    pub path: String,
}

#[derive(Debug, Clone, PartialEq, Eq)]
pub struct CreateManyArgs {
    pub input: String,
}

#[derive(Debug, Clone, PartialEq, Eq)]
pub struct UpdateManyArgs {
    pub ids: Vec<i64>,
    pub from_collection: Vec<CollectionScope>,
    pub exclude_collection: Vec<CollectionScope>,
    pub search: Option<String>,
    pub tags: Vec<String>,
    pub to_collection: Option<CollectionScope>,
}

pub struct UpdateManyArgsV {
    pub ids: Seq<i64>,
    pub from_collection: Seq<CollectionScope>,
    pub exclude_collection: Seq<CollectionScope>,
    pub search: Option<Seq<char>>,
    pub tags: Seq<Seq<char>>,
    pub to_collection: Option<CollectionScope>,
}

impl View for UpdateManyArgs {
    type V = UpdateManyArgsV;

    open spec fn view(&self) -> UpdateManyArgsV {
        UpdateManyArgsV {
            ids: self.ids@,
            from_collection: self.from_collection@,
            exclude_collection: self.exclude_collection@,
            search: opt_text(self.search),
            tags: texts(self.tags@),
            to_collection: self.to_collection,
        }
    }
}

#[derive(Debug, Clone, PartialEq, Eq)]
pub struct DeleteManyArgs {
    pub collection_id: CollectionScope,
    pub ids: Vec<i64>,
}

#[derive(Debug, Clone, PartialEq, Eq)]
pub struct ExportArgs {
    pub output: String,
    pub collection: Option<CollectionScope>,
}

#[derive(Debug, Clone, Copy, PartialEq, Eq, Structural)]
pub struct GetCollectionArgs {
    pub id: CollectionScope,
}

#[derive(Debug, Clone, PartialEq, Eq)]
pub struct CreateCollectionArgs {
    pub title: String,
    pub parent: Option<i64>,
}

#[derive(Debug, Clone, PartialEq, Eq)]
pub struct UpdateCollectionArgs {
    pub id: i64,
    pub title: Option<String>,
    pub parent: Option<i64>,
}

#[derive(Debug, Clone, Copy, PartialEq, Eq, Structural)]
pub struct DeleteCollectionArgs {
    pub id: i64,
}

#[derive(Debug, Clone, PartialEq, Eq)]
pub struct UploadCollectionCoverArgs {
    pub id: i64,
    pub path: String,
}

#[derive(Debug, Clone, PartialEq, Eq)]
pub enum CollectionsCommand {
    List,
    Get(GetCollectionArgs),
    Create(CreateCollectionArgs),
    Update(UpdateCollectionArgs),
    Delete(DeleteCollectionArgs),
    UploadCover(UploadCollectionCoverArgs),
}

pub enum CollectionsCommandV {
    List,
    Get(GetCollectionArgs),
    Create { title: Seq<char>, parent: Option<i64> },
    Update { id: i64, title: Option<Seq<char>>, parent: Option<i64> },
    Delete(DeleteCollectionArgs),
    UploadCover { id: i64, path: Seq<char> },
}

impl View for CollectionsCommand {
    type V = CollectionsCommandV;

    open spec fn view(&self) -> CollectionsCommandV {
        match self {
            CollectionsCommand::List => CollectionsCommandV::List,
            CollectionsCommand::Get(a) => CollectionsCommandV::Get(*a),
            CollectionsCommand::Create(a) => CollectionsCommandV::Create {
                title: a.title@,
                parent: a.parent,
            },
            CollectionsCommand::Update(a) => CollectionsCommandV::Update {
                id: a.id,
                title: opt_text(a.title),
                parent: a.parent,
            },
            CollectionsCommand::Delete(a) => CollectionsCommandV::Delete(*a),
            CollectionsCommand::UploadCover(a) => CollectionsCommandV::UploadCover {
                id: a.id,
                path: a.path@,
            },
        }
    }
}

#[derive(Debug, Clone, Copy, PartialEq, Eq, Structural)]
pub struct GetTagsArgs {
    pub collection_id: i64,
}

#[derive(Debug, Clone, PartialEq, Eq)]
pub struct RenameTagArgs {
    pub collection_id: i64,
    pub find: String,
    pub replace: String,
}

#[derive(Debug, Clone, PartialEq, Eq)]
pub struct DeleteTagArgs {
    pub collection_id: i64,
    pub tag: String,
}

#[derive(Debug, Clone, PartialEq, Eq)]
pub enum TagsCommand {
    List,
    Get(GetTagsArgs),
    Rename(RenameTagArgs),
    Delete(DeleteTagArgs),
}

pub enum TagsCommandV {
    List,
    Get(GetTagsArgs),
    Rename { collection_id: i64, find: Seq<char>, replace: Seq<char> },
    Delete { collection_id: i64, tag: Seq<char> },
}

impl View for TagsCommand {
    type V = TagsCommandV;

    open spec fn view(&self) -> TagsCommandV {
        match self {
            TagsCommand::List => TagsCommandV::List,
            TagsCommand::Get(a) => TagsCommandV::Get(*a),
            TagsCommand::Rename(a) => TagsCommandV::Rename {
                collection_id: a.collection_id,
                find: a.find@,
                replace: a.replace@,
            },
            TagsCommand::Delete(a) => TagsCommandV::Delete {
                collection_id: a.collection_id,
                tag: a.tag@,
            },
        }
    }
}

#[derive(Debug, Clone, Copy, PartialEq, Eq, Structural)]
pub struct ListFiltersArgs {
    pub collection_id: i64,
}

#[derive(Debug, Clone, Copy, PartialEq, Eq, Structural)]
pub enum FiltersCommand {
    List(ListFiltersArgs),
}

/// A command of the `puddle` program.
#[derive(Debug, Clone, PartialEq, Eq)]
pub enum Command {
    List(ListArgs),
    Get(GetArgs),
    Create(CreateArgs),
    Update(UpdateArgs),
    Delete(DeleteArgs),
    UploadFile(UploadFileArgs),
    UploadCover(UploadCoverArgs),
    CreateMany(CreateManyArgs),
    UpdateMany(UpdateManyArgs),
    DeleteMany(DeleteManyArgs),
    Export(ExportArgs),
    Collections { command: CollectionsCommand },
    Tags { command: TagsCommand },
    Me,
    Filters { command: FiltersCommand },
    Setup,
    Config,
}

pub enum CommandV {
    List(ListArgsV),
    Get(GetArgs),
    Create(CreateArgsV),
    Update(UpdateArgsV),
    Delete(DeleteArgs),
    UploadFile { path: Seq<char> },
    UploadCover { id: RaindropId, path: Seq<char> },
    CreateMany { input: Seq<char> },
    UpdateMany(UpdateManyArgsV),
    DeleteMany { collection_id: CollectionScope, ids: Seq<i64> },
    Export { output: Seq<char>, collection: Option<CollectionScope> },
    Collections(CollectionsCommandV),
    Tags(TagsCommandV),
    Me,
    Filters(FiltersCommand),
    Setup,
    Config,
}

impl View for Command {
    type V = CommandV;

    open spec fn view(&self) -> CommandV {
        match self {
            Command::List(a) => CommandV::List(a@),
            Command::Get(a) => CommandV::Get(*a),
            Command::Create(a) => CommandV::Create(a@),
            Command::Update(a) => CommandV::Update(a@),
            Command::Delete(a) => CommandV::Delete(*a),
            Command::UploadFile(a) => CommandV::UploadFile { path: a.path@ },
            Command::UploadCover(a) => CommandV::UploadCover { id: a.id, path: a.path@ },
            Command::CreateMany(a) => CommandV::CreateMany { input: a.input@ },
            Command::UpdateMany(a) => CommandV::UpdateMany(a@),
            Command::DeleteMany(a) => CommandV::DeleteMany {
                collection_id: a.collection_id,
                ids: a.ids@,
            },
            Command::Export(a) => CommandV::Export {
                output: a.output@,
                collection: a.collection,
            },
            Command::Collections { command } => CommandV::Collections(command@),
            Command::Tags { command } => CommandV::Tags(command@),
            Command::Me => CommandV::Me,
            Command::Filters { command } => CommandV::Filters(*command),
            Command::Setup => CommandV::Setup,
            Command::Config => CommandV::Config,
        }
    }
}

/// The outcome of reading a command line, by its view.
pub open spec fn outcome_view(r: Result<Option<Command>, crate::cli::scan::CliError>) -> Result<
    Option<CommandV>,
    crate::cli::scan::CliError,
> {
    match r {
        Ok(Some(c)) => Ok(Some(c@)),
        Ok(None) => Ok(None),
        Err(e) => Err(e),
    }
}

} // verus!
