//! The sections of a document: an ordered index from section names to the
//! blocks that stand under them.

use vstd::prelude::*;
use vstd::string::*;
use indexmap::IndexMap;

verus! {

/// A block of a section: prose for the renderer, or code for the evaluator.
#[derive(Debug, PartialEq, Eq)]
pub enum ContentBlock {
    Prose(String),
    Code(String),
}

/// What a [`ContentBlock`] is, mathematically.
pub enum ContentBlockView {
    Prose(Seq<char>),
    Code(Seq<char>),
}

impl View for ContentBlock {
    type V = ContentBlockView;

    open spec fn view(&self) -> ContentBlockView {
        match self {
            ContentBlock::Prose(s) => ContentBlockView::Prose(s@),
            ContentBlock::Code(s) => ContentBlockView::Code(s@),
        }
    }
}

impl Clone for ContentBlock {
    fn clone(&self) -> (r: ContentBlock)
        ensures
            r@ == self@,
    {
        match self {
            ContentBlock::Prose(s) => ContentBlock::Prose(s.clone()),
            ContentBlock::Code(s) => ContentBlock::Code(s.clone()),
        }
    }
}

/// A section: its name and its blocks, in order.
pub struct SectionView {
    pub name: Seq<char>,
    pub blocks: Seq<ContentBlockView>,
}

/// `indexmap::IndexMap`, a hash map that keeps its keys in the order in
/// which they were first inserted. Nothing inside it is seen here.
#[verifier::external_type_specification]
#[verifier::external_body]
#[verifier::reject_recursive_types(K)]
#[verifier::reject_recursive_types(V)]
#[verifier::reject_recursive_types(S)]
pub struct ExIndexMap<K, V, S>(IndexMap<K, V, S>);

/// The sections that an index holds, in the order in which their names
/// were first entered.
pub uninterp spec fn sections_of(index: IndexMap<String, Vec<ContentBlock>>) -> Seq<SectionView>;

/// What `str::to_lowercase` makes of a text.
pub uninterp spec fn lowercase_of(text: Seq<char>) -> Seq<char>;

/// The slug that `slugify` makes of a text, with `-` between its words.
pub uninterp spec fn slug_of(text: Seq<char>) -> Seq<char>;

/// The views of a sequence of blocks.
pub open spec fn contents_view(blocks: Seq<ContentBlock>) -> Seq<ContentBlockView> {
    Seq::new(blocks.len(), |i: int| blocks[i]@)
}

/// Whether the `i`-th section is called `name`.
pub open spec fn named_at(sections: Seq<SectionView>, name: Seq<char>, i: int) -> bool {
    0 <= i < sections.len() && sections[i].name == name
}

/// The place of the section called `name`, if there is one.
pub open spec fn position(sections: Seq<SectionView>, name: Seq<char>) -> Option<int> {
    if exists|i: int| named_at(sections, name, i) {
        Some(choose|i: int| named_at(sections, name, i))
    } else {
        None
    }
}

/// The sections with one called `name` among them: a new, empty one behind
/// the others where there was none.
pub open spec fn touch(sections: Seq<SectionView>, name: Seq<char>) -> Seq<SectionView> {
    match position(sections, name) {
        Some(_) => sections,
        None => sections.push(SectionView { name, blocks: Seq::empty() }),
    }
}

/// The sections with `block` behind the blocks of the one called `name`,
/// which is new and behind the others where there was none.
pub open spec fn append(sections: Seq<SectionView>, name: Seq<char>, block: ContentBlockView) -> Seq<
    SectionView,
> {
    match position(sections, name) {
        Some(i) => sections.update(
            i,
            SectionView { name, blocks: sections[i].blocks.push(block) },
        ),
        None => sections.push(SectionView { name, blocks: seq![block] }),
    }
}

/// `IndexMap::new`: the index holds nothing.
#[verifier::external_body]
fn index_new() -> (index: IndexMap<String, Vec<ContentBlock>>)
    ensures
        sections_of(index) == Seq::<SectionView>::empty(),
{
    IndexMap::new()
}

/// `IndexMap::len`: the number of sections held.
#[verifier::external_body]
fn index_len(index: &IndexMap<String, Vec<ContentBlock>>) -> (n: usize)
    ensures
        n == sections_of(*index).len(),
{
    index.len()
}

/// `IndexMap::get_index_of`: the place of the key `name`, which is held at
/// most once, or nothing where it is not held.
#[verifier::external_body]
fn index_position(index: &IndexMap<String, Vec<ContentBlock>>, name: &String) -> (r: Option<usize>)
    ensures
        match r {
            Some(i) => named_at(sections_of(*index), name@, i as int) && forall|j: int|
                named_at(sections_of(*index), name@, j) ==> j == i,
            None => forall|j: int| !named_at(sections_of(*index), name@, j),
        },
{
    index.get_index_of(name)
}

/// `IndexMap::get_index`: the key and the value at place `i`, or nothing
/// where `i` is past the end.
#[verifier::external_body]
fn index_section(index: &IndexMap<String, Vec<ContentBlock>>, i: usize) -> (r: Option<
    (&String, &Vec<ContentBlock>),
>)
    ensures
        match r {
            Some((name, blocks)) => i < sections_of(*index).len() && name@ == sections_of(
                *index,
            )[i as int].name && contents_view(blocks@) == sections_of(*index)[i as int].blocks,
            None => i >= sections_of(*index).len(),
        },
{
    index.get_index(i)
}

/// `IndexMap::entry` and `Entry::or_default`: a key that is not held is
/// entered behind the others with an empty value; one that is held stays
/// as it is.
#[verifier::external_body]
fn index_touch(index: &mut IndexMap<String, Vec<ContentBlock>>, name: String)
    ensures
        sections_of(*final(index)) == touch(sections_of(*old(index)), name@),
{
    index.entry(name).or_default();
}

/// `IndexMap::entry` and `Entry::or_default`, then a push onto the value
/// that they hand out: the value of `name` gets `block` behind what it
/// held, and starts empty where the key was not held.
#[verifier::external_body]
fn index_append(index: &mut IndexMap<String, Vec<ContentBlock>>, name: String, block: ContentBlock)
    ensures
        sections_of(*final(index)) == append(sections_of(*old(index)), name@, block@),
{
    index.entry(name).or_default().push(block);
}

/// `str::to_lowercase`.
#[verifier::external_body]
fn lowercase(text: &str) -> (r: String)
    ensures
        r@ == lowercase_of(text@),
{
    text.to_lowercase()
}

/// `slugify::slugify` without stop words or a maximum length, and with `-`
/// as the separator.
#[verifier::external_body]
fn slug(text: &str) -> (r: String)
    ensures
        r@ == slug_of(text@),
{
    slugify::slugify(text, "", "-", None)
}

/// A block of a document, as its markup gives it.
#[derive(Debug, PartialEq, Eq)]
pub enum Block {
    /// A heading, with its text.
    Header(String),
    /// A code block: its tag, if it has one, its content, and the markup
    /// that shows it as prose.
    CodeBlock { syntax: Option<String>, content: String, markdown: String },
    /// Any other block, as markup.
    Other(String),
}

/// What a [`Block`] is, mathematically.
pub enum BlockView {
    Header(Seq<char>),
    CodeBlock { syntax: Option<Seq<char>>, content: Seq<char>, markdown: Seq<char> },
    Other(Seq<char>),
}

impl View for Block {
    type V = BlockView;

    open spec fn view(&self) -> BlockView {
        match self {
            Block::Header(text) => BlockView::Header(text@),
            Block::CodeBlock { syntax, content, markdown } => BlockView::CodeBlock {
                syntax: match syntax {
                    Some(tag) => Some(tag@),
                    None => None,
                },
                content: content@,
                markdown: markdown@,
            },
            Block::Other(markdown) => BlockView::Other(markdown@),
        }
    }
}

/// The views of a sequence of document blocks.
pub open spec fn blocks_view(blocks: Seq<Block>) -> Seq<BlockView> {
    Seq::new(blocks.len(), |i: int| blocks[i]@)
}

/// The name of the section that holds what stands before the first heading.
pub open spec fn intro_section() -> Seq<char> {
    "intro"@
}

/// The tag of the code blocks that are executed.
pub open spec fn code_tag() -> Seq<char> {
    "rundown"@
}

/// The name of the section that a heading opens.
pub open spec fn section_name(heading: Seq<char>) -> Seq<char> {
    slug_of(lowercase_of(heading))
}

/// What a block is within its section: code where it is a code block with
/// the language's tag, prose otherwise.
pub open spec fn classify(block: BlockView) -> ContentBlockView {
    match block {
        BlockView::Header(text) => ContentBlockView::Prose(text),
        BlockView::CodeBlock { syntax, content, markdown } => if syntax == Some(code_tag()) {
            ContentBlockView::Code(content)
        } else {
            ContentBlockView::Prose(markdown)
        },
        BlockView::Other(markdown) => ContentBlockView::Prose(markdown),
    }
}

/// The sections that the blocks from the `i`-th on make of `sections`,
/// where `current` is the section that is open.
pub open spec fn build_from(
    blocks: Seq<BlockView>,
    i: int,
    current: Seq<char>,
    sections: Seq<SectionView>,
) -> Seq<SectionView>
    decreases blocks.len() - i,
{
    if i < 0 || i >= blocks.len() {
        sections
    } else {
        match blocks[i] {
            BlockView::Header(text) => build_from(
                blocks,
                i + 1,
                section_name(text),
                touch(sections, section_name(text)),
            ),
            other => build_from(blocks, i + 1, current, append(sections, current, classify(other))),
        }
    }
}

/// The sections of a document: a heading opens the section of its name, or
/// opens it again; what is no heading goes to the section that is open. The
/// first section is the intro.
pub open spec fn build(blocks: Seq<BlockView>) -> Seq<SectionView> {
    build_from(blocks, 0, intro_section(), touch(Seq::empty(), intro_section()))
}

/// The sections of a document, by name and in the order of their first
/// headings.
#[derive(Debug)]
pub struct SectionIndex {
    sections: IndexMap<String, Vec<ContentBlock>>,
}

impl View for SectionIndex {
    type V = Seq<SectionView>;

    closed spec fn view(&self) -> Seq<SectionView> {
        sections_of(self.sections)
    }
}

fn classify_block(block: &Block) -> (r: ContentBlock)
    ensures
        r@ == classify(block@),
{
    match block {
        Block::Header(text) => ContentBlock::Prose(text.clone()),
        Block::CodeBlock { syntax, content, markdown } => {
            let tagged = match syntax {
                Some(tag) => *tag == String::from_str("rundown"),
                None => false,
            };
            if tagged {
                ContentBlock::Code(content.clone())
            } else {
                ContentBlock::Prose(markdown.clone())
            }
        },
        Block::Other(markdown) => ContentBlock::Prose(markdown.clone()),
    }
}

/// Builds the index of a document's sections from its blocks.
pub fn construct_index(blocks: &Vec<Block>) -> (index: SectionIndex)
    ensures
        index@ == build(blocks_view(blocks@)),
{
    let mut sections = index_new();
    let mut current = String::from_str("intro");
    index_touch(&mut sections, current.clone());
    let mut i: usize = 0;
    while i < blocks.len()
        invariant
            i <= blocks.len(),
            build(blocks_view(blocks@)) == build_from(
                blocks_view(blocks@),
                i as int,
                current@,
                sections_of(sections),
            ),
        decreases blocks.len() - i,
    {
        assert(blocks_view(blocks@)[i as int] == blocks@[i as int]@);
        match &blocks[i] {
            Block::Header(text) => {
                let lowered = lowercase(text.as_str());
                let name = slug(lowered.as_str());
                index_touch(&mut sections, name.clone());
                current = name;
            },
            other => {
                index_append(&mut sections, current.clone(), classify_block(other));
            },
        }
        i += 1;
    }
    SectionIndex { sections }
}

impl SectionIndex {
    /// The number of sections.
    pub fn len(&self) -> (n: usize)
        ensures
            n == self@.len(),
    {
        index_len(&self.sections)
    }

    /// The place of the section called `name`, if there is one.
    pub fn position(&self, name: &String) -> (r: Option<usize>)
        ensures
            match r {
                Some(i) => position(self@, name@) == Some(i as int) && i < self@.len(),
                None => position(self@, name@) is None,
            },
    {
        index_position(&self.sections, name)
    }

    /// The name and the blocks of the section at `i`, if there is one.
    pub fn section(&self, i: usize) -> (r: Option<(&String, &Vec<ContentBlock>)>)
        ensures
            match r {
                Some((name, blocks)) => i < self@.len() && name@ == self@[i as int].name
                    && contents_view(blocks@) == self@[i as int].blocks,
                None => i >= self@.len(),
            },
    {
        index_section(&self.sections, i)
    }
}

} // verus!
