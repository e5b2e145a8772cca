//! The block and template data model: entity definitions with value
//! semantics, their ghost views, and verified deep copies.

use vstd::prelude::*;

verus! {

/// A point on the canvas, in pixels from the canvas origin (top-left).
#[derive(Clone, Copy, PartialEq, Eq, Structural, Debug)]
pub struct Position {
    pub x: i64,
    pub y: i64,
}

/// A block's extent on the canvas, in pixels.
#[derive(Clone, Copy, PartialEq, Eq, Structural, Debug)]
pub struct Size {
    pub width: i64,
    pub height: i64,
}

/// Connectivity marker of a block, reserved for graph-connection use;
/// rendering ignores it.
#[derive(Clone, Copy, PartialEq, Eq, Structural, Debug)]
pub enum Connection {
    Input,
    Output,
    Both,
    Unlinked,
}

/// The logical shape category of a block, fixed for its lifetime.
#[derive(Clone, Copy, PartialEq, Eq, Structural, Debug)]
pub enum BlockType {
    Flag,
    Works,
    Move,
    Composition,
}

/// A separator entry's sub-kind: a no-op layout marker.
#[derive(Clone, Copy, PartialEq, Eq, Structural, Debug)]
pub enum Separator {
    Blank,
    Space,
    Newline,
}

/// A free-text value field of a block body.
#[derive(Clone, PartialEq, Debug)]
pub struct ContentValue {
    pub title: String,
    pub value: String,
    pub placeholder: Option<String>,
}

/// One labeled choice of a selector field.
#[derive(Clone, PartialEq, Debug)]
pub struct Options {
    pub id: String,
    pub title: String,
    pub value: String,
}

/// A selector field of a block body, with its ordered choices.
#[derive(Clone, PartialEq, Debug)]
pub struct ContentSelector {
    pub title: String,
    pub value: String,
    pub options: Vec<Options>,
    pub placeholder: Option<String>,
}

/// The closed sum of content-field kinds a block body can hold.
#[derive(Clone, PartialEq, Debug)]
pub enum EnumBlockContent {
    ContentValue(ContentValue),
    ContentSelector(ContentSelector),
    Separator(Separator),
}

/// One entry of a block's ordered content list, addressed by its own id
/// (unique within the owning block) when an edit targets it.
#[derive(Clone, PartialEq, Debug)]
pub struct BlockContent {
    pub id: String,
    pub content: EnumBlockContent,
}

/// A live block instance (or, inside a template, its prototype).
#[derive(Clone, PartialEq, Debug)]
pub struct Block {
    /// Process-unique instance id, assigned at instantiation, never reused.
    pub id: u64,
    pub block_type: BlockType,
    pub title: String,
    pub output: String,
    pub content: Vec<BlockContent>,
    pub connection: Connection,
    pub child_id: Option<u64>,
    pub parent_id: Option<u64>,
    pub position: Position,
    pub size: Size,
    pub z_index: i32,
}

/// Ghost view of a value field.
#[verifier::ext_equal]
pub struct ContentValueView {
    pub title: Seq<char>,
    pub value: Seq<char>,
    pub placeholder: Option<Seq<char>>,
}

/// Ghost view of one selector choice.
#[verifier::ext_equal]
pub struct OptionsView {
    pub id: Seq<char>,
    pub title: Seq<char>,
    pub value: Seq<char>,
}

/// Ghost view of a selector field.
#[verifier::ext_equal]
pub struct ContentSelectorView {
    pub title: Seq<char>,
    pub value: Seq<char>,
    pub options: Seq<OptionsView>,
    pub placeholder: Option<Seq<char>>,
}

/// Ghost view of a content-field kind.
#[verifier::ext_equal]
pub enum EnumBlockContentView {
    ContentValue(ContentValueView),
    ContentSelector(ContentSelectorView),
    Separator(Separator),
}

/// Ghost view of one content entry.
#[verifier::ext_equal]
pub struct BlockContentView {
    pub id: Seq<char>,
    pub content: EnumBlockContentView,
}

/// Ghost view of a block.
#[verifier::ext_equal]
pub struct BlockView {
    pub id: u64,
    pub block_type: BlockType,
    pub title: Seq<char>,
    pub output: Seq<char>,
    pub content: Seq<BlockContentView>,
    pub connection: Connection,
    pub child_id: Option<u64>,
    pub parent_id: Option<u64>,
    pub position: Position,
    pub size: Size,
    pub z_index: i32,
}

/// The view of an optional string.
pub open spec fn opt_text_view(o: Option<String>) -> Option<Seq<char>> {
    match o {
        Option::Some(s) => Option::Some(s@),
        Option::None => Option::None,
    }
}

impl View for ContentValue {
    type V = ContentValueView;

    open spec fn view(&self) -> ContentValueView {
        ContentValueView {
            title: self.title@,
            value: self.value@,
            placeholder: opt_text_view(self.placeholder),
        }
    }
}

impl View for Options {
    type V = OptionsView;

    open spec fn view(&self) -> OptionsView {
        OptionsView { id: self.id@, title: self.title@, value: self.value@ }
    }
}

impl View for ContentSelector {
    type V = ContentSelectorView;

    open spec fn view(&self) -> ContentSelectorView {
        ContentSelectorView {
            title: self.title@,
            value: self.value@,
            options: self.options@.map_values(|o: Options| o@),
            placeholder: opt_text_view(self.placeholder),
        }
    }
}

impl View for EnumBlockContent {
    type V = EnumBlockContentView;

    open spec fn view(&self) -> EnumBlockContentView {
        match self {
            EnumBlockContent::ContentValue(v) => EnumBlockContentView::ContentValue(v@),
            EnumBlockContent::ContentSelector(s) => EnumBlockContentView::ContentSelector(s@),
            EnumBlockContent::Separator(s) => EnumBlockContentView::Separator(*s),
        }
    }
}

impl View for BlockContent {
    type V = BlockContentView;

    open spec fn view(&self) -> BlockContentView {
        BlockContentView { id: self.id@, content: self.content@ }
    }
}

impl View for Block {
    type V = BlockView;

    open spec fn view(&self) -> BlockView {
        BlockView {
            id: self.id,
            block_type: self.block_type,
            title: self.title@,
            output: self.output@,
            content: self.content@.map_values(|c: BlockContent| c@),
            connection: self.connection,
            child_id: self.child_id,
            parent_id: self.parent_id,
            position: self.position,
            size: self.size,
            z_index: self.z_index,
        }
    }
}

/// Copies an optional string; the copy has the same view.
fn duplicate_opt_text(o: &Option<String>) -> (r: Option<String>)
    ensures
        opt_text_view(r) == opt_text_view(*o),
{
    match o {
        Option::Some(s) => Option::Some(s.clone()),
        Option::None => Option::None,
    }
}

impl Options {
    /// Deep copy with an identical view.
    pub fn duplicate(&self) -> (r: Options)
        ensures
            r@ == self@,
    {
        Options { id: self.id.clone(), title: self.title.clone(), value: self.value.clone() }
    }
}

/// Deep copy of a choice list with an identical view.
fn duplicate_options(v: &Vec<Options>) -> (r: Vec<Options>)
    ensures
        r@.map_values(|o: Options| o@) == v@.map_values(|o: Options| o@),
{
    let mut r: Vec<Options> = Vec::new();
    let mut i: usize = 0;
    while i < v.len()
        invariant
            i <= v.len(),
            r@.len() == i,
            forall|j: int| 0 <= j < i ==> r@[j]@ == v@[j]@,
        decreases v.len() - i,
    {
        r.push(v[i].duplicate());
        i += 1;
    }
    proof {
        assert(r@.map_values(|o: Options| o@) =~= v@.map_values(|o: Options| o@));
    }
    r
}

impl ContentValue {
    /// Deep copy with an identical view.
    pub fn duplicate(&self) -> (r: ContentValue)
        ensures
            r@ == self@,
    {
        ContentValue {
            title: self.title.clone(),
            value: self.value.clone(),
            placeholder: duplicate_opt_text(&self.placeholder),
        }
    }
}

impl ContentSelector {
    /// Deep copy with an identical view.
    pub fn duplicate(&self) -> (r: ContentSelector)
        ensures
            r@ == self@,
    {
        ContentSelector {
            title: self.title.clone(),
            value: self.value.clone(),
            options: duplicate_options(&self.options),
            placeholder: duplicate_opt_text(&self.placeholder),
        }
    }
}

impl EnumBlockContent {
    /// Deep copy with an identical view.
    pub fn duplicate(&self) -> (r: EnumBlockContent)
        ensures
            r@ == self@,
    {
        match self {
            EnumBlockContent::ContentValue(v) => EnumBlockContent::ContentValue(v.duplicate()),
            EnumBlockContent::ContentSelector(s) => EnumBlockContent::ContentSelector(
                s.duplicate(),
            ),
            EnumBlockContent::Separator(s) => EnumBlockContent::Separator(*s),
        }
    }
}

impl BlockContent {
    /// Deep copy with an identical view.
    pub fn duplicate(&self) -> (r: BlockContent)
        ensures
            r@ == self@,
    {
        BlockContent { id: self.id.clone(), content: self.content.duplicate() }
    }
}

/// Deep copy of a content list with an identical view.
pub fn duplicate_contents(v: &Vec<BlockContent>) -> (r: Vec<BlockContent>)
    ensures
        r@.map_values(|c: BlockContent| c@) == v@.map_values(|c: BlockContent| c@),
{
    let mut r: Vec<BlockContent> = Vec::new();
    let mut i: usize = 0;
    while i < v.len()
        invariant
            i <= v.len(),
            r@.len() == i,
            forall|j: int| 0 <= j < i ==> r@[j]@ == v@[j]@,
        decreases v.len() - i,
    {
        r.push(v[i].duplicate());
        i += 1;
    }
    proof {
        assert(r@.map_values(|c: BlockContent| c@) =~= v@.map_values(|c: BlockContent| c@));
    }
    r
}

/// Default width of a freshly built block, in pixels.
pub const DEFAULT_BLOCK_WIDTH: i64 = 150;

/// Default height of a freshly built block, in pixels.
pub const DEFAULT_BLOCK_HEIGHT: i64 = 60;

impl Block {
    /// Builds a block with the given identity, shape, title and position and
    /// every other attribute at its default.
    pub fn new(id: u64, block_type: BlockType, title: String, position: Position) -> (r: Block)
        ensures
            r@.id == id,
            r@.block_type == block_type,
            r@.title == title@,
            r@.output == Seq::<char>::empty(),
            r@.content == Seq::<BlockContentView>::empty(),
            r@.connection == Connection::Unlinked,
            r@.child_id is None,
            r@.parent_id is None,
            r@.position == position,
            r@.size == (Size { width: DEFAULT_BLOCK_WIDTH, height: DEFAULT_BLOCK_HEIGHT }),
            r@.z_index == 0,
    {
        let r = Block {
            id,
            block_type,
            title,
            output: String::new(),
            content: Vec::new(),
            connection: Connection::Unlinked,
            child_id: Option::None,
            parent_id: Option::None,
            position,
            size: Size { width: DEFAULT_BLOCK_WIDTH, height: DEFAULT_BLOCK_HEIGHT },
            z_index: 0,
        };
        proof {
            assert(r@.content =~= Seq::<BlockContentView>::empty());
        }
        r
    }

    /// Deep copy with an identical view: a template's prototype is copied,
    /// never referenced, when a block is instantiated from it.
    pub fn duplicate(&self) -> (r: Block)
        ensures
            r@ == self@,
    {
        Block {
            id: self.id,
            block_type: self.block_type,
            title: self.title.clone(),
            output: self.output.clone(),
            content: duplicate_contents(&self.content),
            connection: self.connection,
            child_id: self.child_id,
            parent_id: self.parent_id,
            position: self.position,
            size: self.size,
            z_index: self.z_index,
        }
    }
}

} // verus!
