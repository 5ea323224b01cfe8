//! The folder browser: the tree of mail folders, its rows, and what a selection gives.

use vstd::prelude::*;

use crate::config::{EntryId, FolderId, StoreId};
use crate::text::{eq_ignore_ascii_case, same_ignoring_case};

verus! {

/// How many folders can be selected.
#[derive(Debug, Clone, Copy, PartialEq, Eq, Structural)]
pub enum SelectionMode {
    /// One folder.
    Single,
    /// Any number of folders.
    Multi,
}

/// A message store or a folder, with the folders in it.
#[derive(Debug)]
pub struct FolderNode {
    pub name: String,
    /// The store's identifier, as hexadecimal text.
    pub store_id: String,
    /// The folder's identifier, as hexadecimal text.
    pub entry_id: String,
    pub children: Vec<FolderNode>,
}

/// A message store or a folder, by its contents.
pub struct FolderNodeView {
    pub name: Seq<char>,
    pub store_id: Seq<char>,
    pub entry_id: Seq<char>,
    pub children: Seq<FolderNodeView>,
}

/// A node by its contents.
pub open spec fn node_view(node: FolderNode) -> FolderNodeView
    decreases node,
{
    FolderNodeView {
        name: node.name@,
        store_id: node.store_id@,
        entry_id: node.entry_id@,
        children: forest_view(node.children@),
    }
}

/// Nodes by their contents.
pub open spec fn forest_view(nodes: Seq<FolderNode>) -> Seq<FolderNodeView>
    decreases nodes,
{
    if nodes.len() == 0 {
        Seq::empty()
    } else {
        forest_view(nodes.drop_last()).push(node_view(nodes.last()))
    }
}

/// A copy of a list of nodes, with everything below them.
pub fn copy_forest(nodes: &Vec<FolderNode>) -> (copy: Vec<FolderNode>)
    ensures
        forest_view(copy@) == forest_view(nodes@),
    decreases nodes,
{
    let mut copy: Vec<FolderNode> = Vec::new();
    let mut i: usize = 0;
    while i < nodes.len()
        invariant
            i <= nodes.len(),
            copy@.len() == i,
            forest_view(copy@) == forest_view(nodes@.take(i as int)),
        decreases nodes.len() - i,
    {
        let children = copy_forest(&nodes[i].children);
        let node = FolderNode {
            name: nodes[i].name.clone(),
            store_id: nodes[i].store_id.clone(),
            entry_id: nodes[i].entry_id.clone(),
            children,
        };
        assert(node_view(node) == node_view(nodes@[i as int]));
        let ghost before = copy@;
        copy.push(node);
        i = i + 1;
        assert(copy@.drop_last() =~= before);
        assert(nodes@.take(i as int).drop_last() =~= nodes@.take(i - 1));
        assert(nodes@.take(i as int).last() == nodes@[i - 1]);
    }
    assert(nodes@.take(i as int) =~= nodes@);
    copy
}

/// Where a folder tree comes from.
pub trait FolderProvider {
    /// The folder trees of all message stores, or why they cannot be had.
    fn load_folder_tree(&self) -> (tree: Result<Vec<FolderNode>, String>);
}

/// A source without folders.
#[derive(Debug, Clone, Copy)]
pub struct NullFolderProvider;

impl FolderProvider for NullFolderProvider {
    fn load_folder_tree(&self) -> (tree: Result<Vec<FolderNode>, String>)
        ensures
            tree matches Ok(nodes) && nodes@.len() == 0,
    {
        Ok(Vec::new())
    }
}

/// A row of the folder tree.
#[derive(Debug)]
pub struct FolderRow {
    /// The row that this one lies below; none for a message store.
    pub parent: Option<usize>,
    pub name: String,
    pub store_id: String,
    pub entry_id: String,
    /// Whether the row is selected when the tree is first shown.
    pub preselected: bool,
}

/// A row of the folder tree, by its contents.
pub struct FolderRowView {
    pub parent: Option<int>,
    pub name: Seq<char>,
    pub store_id: Seq<char>,
    pub entry_id: Seq<char>,
    pub preselected: bool,
}

impl View for FolderRow {
    type V = FolderRowView;

    open spec fn view(&self) -> FolderRowView {
        FolderRowView {
            parent: row_number(self.parent),
            name: self.name@,
            store_id: self.store_id@,
            entry_id: self.entry_id@,
            preselected: self.preselected,
        }
    }
}

/// A row's number as a mathematical integer.
pub open spec fn row_number(row: Option<usize>) -> Option<int> {
    match row {
        Some(i) => Some(i as int),
        None => None,
    }
}

/// Rows by their contents.
pub open spec fn rows_view(rows: Seq<FolderRow>) -> Seq<FolderRowView> {
    Seq::new(rows.len(), |i: int| rows[i]@)
}

/// Whether a list of folders holds the folder with the given identifiers. Identifiers are
/// hexadecimal, so that capital and small letters count as the same.
pub open spec fn lists_folder(folders: Seq<FolderId>, store: Seq<char>, entry: Seq<char>) -> bool {
    exists|i: int|
        0 <= i < folders.len() && same_ignoring_case(
            #[trigger] folders[i].store_id.id@,
            store,
        ) && same_ignoring_case(folders[i].entry_id.id@, entry)
}

/// The row of a node.
pub open spec fn row_of(node: FolderNode, parent: Option<int>, preselected: Seq<FolderId>) ->
    FolderRowView {
    FolderRowView {
        parent,
        name: node.name@,
        store_id: node.store_id@,
        entry_id: node.entry_id@,
        preselected: lists_folder(preselected, node.store_id@, node.entry_id@),
    }
}

/// The rows of a node and of everything below it, where the node's own row has the number `at`.
pub open spec fn node_rows(
    node: FolderNode,
    parent: Option<int>,
    at: int,
    preselected: Seq<FolderId>,
) -> Seq<FolderRowView>
    decreases node,
{
    seq![row_of(node, parent, preselected)] + forest_rows(
        node.children@,
        Some(at),
        at + 1,
        preselected,
    )
}

/// The rows of nodes and of everything below them, in the order of the tree, where the first row
/// has the number `at`.
pub open spec fn forest_rows(
    nodes: Seq<FolderNode>,
    parent: Option<int>,
    at: int,
    preselected: Seq<FolderId>,
) -> Seq<FolderRowView>
    decreases nodes,
{
    if nodes.len() == 0 {
        Seq::empty()
    } else {
        let before = forest_rows(nodes.drop_last(), parent, at, preselected);
        before + node_rows(nodes.last(), parent, at + before.len(), preselected)
    }
}

/// The number of nodes in a tree.
pub open spec fn node_size(node: FolderNode) -> nat
    decreases node,
{
    1 + forest_size(node.children@)
}

/// The number of nodes in trees.
pub open spec fn forest_size(nodes: Seq<FolderNode>) -> nat
    decreases nodes,
{
    if nodes.len() == 0 {
        0
    } else {
        forest_size(nodes.drop_last()) + node_size(nodes.last())
    }
}

/// Whether every row from the number `at` on lies below an earlier row, or below `parent`.
pub open spec fn parents_come_first(
    rows: Seq<FolderRowView>,
    parent: Option<int>,
    at: int,
) -> bool {
    forall|i: int|
        0 <= i < rows.len() ==> (#[trigger] rows[i]).parent == parent || (rows[i].parent matches Some(
            p,
        ) && at <= p < at + i)
}

proof fn lemma_node_rows(node: FolderNode, parent: Option<int>, at: int, pre: Seq<FolderId>)
    ensures
        node_rows(node, parent, at, pre).len() == node_size(node),
        parents_come_first(node_rows(node, parent, at, pre), parent, at),
    decreases node,
{
    let below = forest_rows(node.children@, Some(at), at + 1, pre);
    let rows = node_rows(node, parent, at, pre);
    lemma_forest_rows(node.children@, Some(at), at + 1, pre);
    assert forall|i: int| 0 <= i < rows.len() implies (#[trigger] rows[i]).parent == parent || (
    rows[i].parent matches Some(p) && at <= p < at + i) by {
        if i > 0 {
            assert(rows[i] == below[i - 1]);
        }
    }
}

proof fn lemma_forest_rows(
    nodes: Seq<FolderNode>,
    parent: Option<int>,
    at: int,
    pre: Seq<FolderId>,
)
    ensures
        forest_rows(nodes, parent, at, pre).len() == forest_size(nodes),
        parents_come_first(forest_rows(nodes, parent, at, pre), parent, at),
    decreases nodes,
{
    if nodes.len() > 0 {
        let before = forest_rows(nodes.drop_last(), parent, at, pre);
        let last = node_rows(nodes.last(), parent, at + before.len(), pre);
        let rows = forest_rows(nodes, parent, at, pre);
        lemma_forest_rows(nodes.drop_last(), parent, at, pre);
        lemma_node_rows(nodes.last(), parent, at + before.len(), pre);
        assert forall|i: int| 0 <= i < rows.len() implies (#[trigger] rows[i]).parent == parent || (
        rows[i].parent matches Some(p) && at <= p < at + i) by {
            if i < before.len() {
                assert(rows[i] == before[i]);
            } else {
                assert(rows[i] == last[i - before.len()]);
            }
        }
    }
}

/// Every node of the tree has one row, message stores lie below no row, and every other row comes
/// after the row that it lies below.
pub proof fn rows_follow_the_tree(tree: Seq<FolderNode>, preselected: Seq<FolderId>)
    ensures
        forest_rows(tree, None, 0, preselected).len() == forest_size(tree),
        parents_come_first(forest_rows(tree, None, 0, preselected), None, 0),
{
    lemma_forest_rows(tree, None, 0, preselected);
}

/// Whether a list of folders holds the folder with the given identifiers.
fn is_listed(folders: &Vec<FolderId>, store: &str, entry: &str) -> (listed: bool)
    ensures
        listed == lists_folder(folders@, store@, entry@),
{
    let mut i: usize = 0;
    while i < folders.len()
        invariant
            i <= folders.len(),
            forall|j: int|
                0 <= j < i ==> !(same_ignoring_case(#[trigger] folders@[j].store_id.id@, store@)
                    && same_ignoring_case(folders@[j].entry_id.id@, entry@)),
        decreases folders.len() - i,
    {
        if eq_ignore_ascii_case(folders[i].store_id.id.as_str(), store) && eq_ignore_ascii_case(
            folders[i].entry_id.id.as_str(),
            entry,
        ) {
            assert(same_ignoring_case(folders@[i as int].store_id.id@, store@));
            return true;
        }
        i = i + 1;
    }
    false
}

/// Appends the rows of nodes that lie below the given row.
fn insert_nodes(
    rows: &mut Vec<FolderRow>,
    parent: Option<usize>,
    nodes: &Vec<FolderNode>,
    preselected: &Vec<FolderId>,
)
    ensures
        rows_view(final(rows)@) == rows_view(old(rows)@) + forest_rows(
            nodes@,
            row_number(parent),
            old(rows)@.len() as int,
            preselected@,
        ),
    decreases nodes,
{
    let ghost start = rows_view(rows@);
    let ghost at = rows@.len() as int;
    let mut i: usize = 0;
    assert(start + forest_rows(nodes@.take(0), row_number(parent), at, preselected@) =~= start);
    while i < nodes.len()
        invariant
            i <= nodes.len(),
            at == start.len(),
            rows_view(rows@) == start + forest_rows(
                nodes@.take(i as int),
                row_number(parent),
                at,
                preselected@,
            ),
        decreases nodes.len() - i,
    {
        let ghost before = rows_view(rows@);
        let own: usize = rows.len();
        let row = FolderRow {
            parent,
            name: nodes[i].name.clone(),
            store_id: nodes[i].store_id.clone(),
            entry_id: nodes[i].entry_id.clone(),
            preselected: is_listed(
                preselected,
                nodes[i].store_id.as_str(),
                nodes[i].entry_id.as_str(),
            ),
        };
        assert(row@ == row_of(nodes@[i as int], row_number(parent), preselected@));
        rows.push(row);
        assert(rows_view(rows@) =~= before.push(
            row_of(nodes@[i as int], row_number(parent), preselected@),
        ));
        insert_nodes(rows, Some(own), &nodes[i].children, preselected);
        assert(rows_view(rows@) =~= before + node_rows(
            nodes@[i as int],
            row_number(parent),
            own as int,
            preselected@,
        ));
        i = i + 1;
        assert(nodes@.take(i as int).drop_last() =~= nodes@.take(i - 1));
        assert(nodes@.take(i as int).last() == nodes@[i - 1]);
        assert(rows_view(rows@) =~= start + forest_rows(
            nodes@.take(i as int),
            row_number(parent),
            at,
            preselected@,
        ));
    }
    assert(nodes@.take(i as int) =~= nodes@);
}

/// The rows of the folder tree, each with the row that it lies below and whether it is selected at
/// first: so are those of the given folders.
pub fn populate_tree_store(tree: &Vec<FolderNode>, preselected: &Vec<FolderId>) -> (rows: Vec<
    FolderRow,
>)
    ensures
        rows_view(rows@) == forest_rows(tree@, None, 0, preselected@),
{
    let mut rows: Vec<FolderRow> = Vec::new();
    insert_nodes(&mut rows, None, tree, preselected);
    assert(rows_view(rows@) =~= forest_rows(tree@, None, 0, preselected@));
    rows
}

/// A row that the user selected.
#[derive(Debug)]
pub struct SelectedRow {
    pub name: String,
    pub store_id: String,
    pub entry_id: String,
}

/// A selected folder, by its contents: its store, its entry and its name.
pub struct FolderSelection {
    pub store: Seq<char>,
    pub entry: Seq<char>,
    pub name: Seq<char>,
}

/// Selected folders by their contents.
pub open spec fn selections_view(selections: Seq<(FolderId, String)>) -> Seq<FolderSelection> {
    Seq::new(
        selections.len(),
        |i: int|
            FolderSelection {
                store: selections[i].0.store_id.id@,
                entry: selections[i].0.entry_id.id@,
                name: selections[i].1@,
            },
    )
}

/// The folders that selected rows stand for, in their order. A row without an entry identifier
/// stands for a whole message store and is left out.
pub open spec fn selected_folders(rows: Seq<SelectedRow>) -> Seq<FolderSelection>
    decreases rows.len(),
{
    if rows.len() == 0 {
        Seq::empty()
    } else if rows.last().entry_id@.len() == 0 {
        selected_folders(rows.drop_last())
    } else {
        selected_folders(rows.drop_last()).push(
            FolderSelection {
                store: rows.last().store_id@,
                entry: rows.last().entry_id@,
                name: rows.last().name@,
            },
        )
    }
}

/// The folders that the selected rows stand for.
pub fn read_selection(rows: &Vec<SelectedRow>) -> (selections: Vec<(FolderId, String)>)
    ensures
        selections_view(selections@) == selected_folders(rows@),
{
    let mut selections: Vec<(FolderId, String)> = Vec::new();
    let mut i: usize = 0;
    while i < rows.len()
        invariant
            i <= rows.len(),
            selections_view(selections@) =~= selected_folders(rows@.take(i as int)),
        decreases rows.len() - i,
    {
        let ghost before = selections_view(selections@);
        assert(rows@.take(i + 1).drop_last() =~= rows@.take(i as int));
        assert(rows@.take(i + 1).last() == rows@[i as int]);
        if !rows[i].entry_id.as_str().is_empty() {
            let folder = FolderId::new(
                StoreId::new(rows[i].store_id.as_str()),
                EntryId::new(rows[i].entry_id.as_str()),
            );
            selections.push((folder, rows[i].name.clone()));
            assert(selections_view(selections@) =~= before.push(
                FolderSelection {
                    store: rows@[i as int].store_id@,
                    entry: rows@[i as int].entry_id@,
                    name: rows@[i as int].name@,
                },
            ));
        }
        i = i + 1;
    }
    assert(rows@.take(i as int) =~= rows@);
    selections
}

/// The folder browser dialog.
#[derive(Debug)]
pub struct FolderBrowserDialog {
    pub mode: SelectionMode,
    /// The outcome, once there is one: the selected folders, or nothing.
    pub result: Option<Option<Vec<(FolderId, String)>>>,
}

impl FolderBrowserDialog {
    /// The dialog is still open.
    pub open spec fn is_open(&self) -> bool {
        self.result is None
    }

    /// The dialog was closed with nothing selected.
    pub open spec fn gave_nothing(&self) -> bool {
        self.result matches Some(outcome) && outcome is None
    }

    /// The dialog was closed with the given folders selected.
    pub open spec fn gave(&self, folders: Seq<FolderSelection>) -> bool {
        self.result matches Some(outcome) && (outcome matches Some(list) && selections_view(list@)
            == folders)
    }

    /// A dialog for a tree that was loaded or could not be. What comes back besides is the message
    /// about a tree that could not be loaded; the dialog is then closed at once, with nothing
    /// selected.
    pub fn new(loaded: &Result<(), String>, mode: SelectionMode) -> (created: (
        FolderBrowserDialog,
        Option<String>,
    ))
        ensures
            created.0.mode == mode,
            match *loaded {
                Ok(_) => created.0.is_open() && created.1 is None,
                Err(error) => created.0.gave_nothing() && (created.1 matches Some(message)
                    && message@ == "Failed to load folder list:\n\n"@ + error@),
            },
    {
        match loaded {
            Ok(_) => (FolderBrowserDialog { mode, result: None }, None),
            Err(error) => {
                let message = "Failed to load folder list:\n\n".to_owned().concat(error.as_str());
                (FolderBrowserDialog { mode, result: Some(None) }, Some(message))
            },
        }
    }

    /// The dialog's title.
    pub fn title(mode: SelectionMode) -> (title: &'static str)
        ensures
            title == (match mode {
                SelectionMode::Single => "Select Folder",
                SelectionMode::Multi => "Select Folders",
            }),
    {
        match mode {
            SelectionMode::Single => "Select Folder",
            SelectionMode::Multi => "Select Folders",
        }
    }

    /// Handles the OK button. Where one folder is to be selected, an empty selection counts as
    /// nothing selected.
    pub fn on_ok(&mut self, rows: &Vec<SelectedRow>)
        ensures
            final(self).mode == old(self).mode,
            if old(self).mode == SelectionMode::Single && selected_folders(rows@).len() == 0 {
                final(self).gave_nothing()
            } else {
                final(self).gave(selected_folders(rows@))
            },
    {
        let selections = read_selection(rows);
        assert(selections_view(selections@).len() == selections@.len());
        if selections.len() == 0 && self.mode == SelectionMode::Single {
            self.result = Some(None);
        } else {
            self.result = Some(Some(selections));
        }
    }

    /// Handles the Cancel button.
    pub fn on_cancel(&mut self)
        ensures
            final(self).mode == old(self).mode,
            final(self).gave_nothing(),
    {
        self.result = Some(None);
    }

    /// Handles the closing of the window: without an outcome, nothing is selected.
    pub fn on_close_request(&mut self)
        ensures
            final(self).mode == old(self).mode,
            old(self).is_open() ==> final(self).gave_nothing(),
            !old(self).is_open() ==> final(self).result == old(self).result,
    {
        if self.result.is_none() {
            self.result = Some(None);
        }
    }

    /// Handles a double click on a row: where one folder is to be selected, it is taken, unless the
    /// row stands for none. Says whether the dialog is to be closed.
    pub fn on_row_activated(&mut self, rows: &Vec<SelectedRow>) -> (close: bool)
        ensures
            final(self).mode == old(self).mode,
            close == (old(self).mode == SelectionMode::Single && selected_folders(rows@).len() > 0),
            close ==> final(self).gave(selected_folders(rows@)),
            !close ==> final(self).result == old(self).result,
    {
        if self.mode == SelectionMode::Single {
            let selections = read_selection(rows);
            assert(selections_view(selections@).len() == selections@.len());
            if selections.len() > 0 {
                self.result = Some(Some(selections));
                return true;
            }
        }
        false
    }
}

/// Two nodes have the same name and identifiers, and so have the nodes below them, one by one.
pub open spec fn same_node(a: FolderNode, b: FolderNode) -> bool
    decreases a,
{
    &&& a.name@ == b.name@
    &&& a.store_id@ == b.store_id@
    &&& a.entry_id@ == b.entry_id@
    &&& a.children@.len() == b.children@.len()
    &&& forall|i: int|
        0 <= i < a.children@.len() ==> same_node(#[trigger] a.children@[i], b.children@[i])
}

/// Nodes by their contents, one by one.
pub proof fn forest_view_is_pointwise(nodes: Seq<FolderNode>)
    ensures
        forest_view(nodes).len() == nodes.len(),
        forall|i: int|
            0 <= i < nodes.len() ==> #[trigger] forest_view(nodes)[i] == node_view(nodes[i]),
    decreases nodes.len(),
{
    if nodes.len() > 0 {
        forest_view_is_pointwise(nodes.drop_last());
        assert forall|i: int| 0 <= i < nodes.len() implies #[trigger] forest_view(nodes)[i]
            == node_view(nodes[i]) by {
            if i < nodes.len() - 1 {
                assert(forest_view(nodes)[i] == forest_view(nodes.drop_last())[i]);
            }
        }
    }
}

/// Nodes with the same contents are the same, down to the last folder below them.
pub proof fn equal_views_are_same_nodes(a: FolderNode, b: FolderNode)
    requires
        node_view(a) == node_view(b),
    ensures
        same_node(a, b),
    decreases a,
{
    forest_view_is_pointwise(a.children@);
    forest_view_is_pointwise(b.children@);
    assert forall|i: int| 0 <= i < a.children@.len() implies same_node(
        #[trigger] a.children@[i],
        b.children@[i],
    ) by {
        assert(forest_view(a.children@)[i] == forest_view(b.children@)[i]);
        equal_views_are_same_nodes(a.children@[i], b.children@[i]);
    }
}

/// A copy of a tree has as many nodes, each with the same name, the same identifiers and the same
/// nodes below it.
pub proof fn a_copied_tree_is_the_same(nodes: &Vec<FolderNode>, copy: Vec<FolderNode>)
    requires
        call_ensures(copy_forest, (nodes,), copy),
    ensures
        copy@.len() == nodes@.len(),
        forall|i: int| 0 <= i < nodes@.len() ==> #[trigger] same_node(copy@[i], nodes@[i]),
{
    forest_view_is_pointwise(nodes@);
    forest_view_is_pointwise(copy@);
    assert forall|i: int| 0 <= i < nodes@.len() implies #[trigger] same_node(
        copy@[i],
        nodes@[i],
    ) by {
        assert(forest_view(copy@)[i] == forest_view(nodes@)[i]);
        equal_views_are_same_nodes(copy@[i], nodes@[i]);
    }
}

/// Rows hold a node, in the row with the number `at`, and everything below it: the row has the
/// node's name and identifiers, and each folder below follows, after those before it and what lies
/// below them, in a row that names this one as the row that it lies below.
pub open spec fn hold_node(
    rows: Seq<FolderRowView>,
    node: FolderNode,
    parent: Option<int>,
    at: int,
) -> bool
    decreases node,
{
    &&& 0 <= at < rows.len()
    &&& rows[at].name == node.name@
    &&& rows[at].store_id == node.store_id@
    &&& rows[at].entry_id == node.entry_id@
    &&& rows[at].parent == parent
    &&& forall|i: int|
        0 <= i < node.children@.len() ==> hold_node(
            rows,
            #[trigger] node.children@[i],
            Some(at),
            at + 1 + forest_size(node.children@.take(i)),
        )
}

/// The rows of nodes, from those of the node with number `i` on.
proof fn lemma_rows_of_one(
    nodes: Seq<FolderNode>,
    parent: Option<int>,
    at: int,
    pre: Seq<FolderId>,
    i: int,
)
    requires
        0 <= i < nodes.len(),
    ensures
        ({
            let from = forest_size(nodes.take(i)) as int;
            let rows = forest_rows(nodes, parent, at, pre);
            &&& from + node_size(nodes[i]) <= rows.len()
            &&& rows.subrange(from, from + node_size(nodes[i])) == node_rows(
                nodes[i],
                parent,
                at + from,
                pre,
            )
        }),
    decreases nodes.len(),
{
    let rows = forest_rows(nodes, parent, at, pre);
    let shorter = nodes.drop_last();
    let before = forest_rows(shorter, parent, at, pre);
    lemma_forest_rows(nodes, parent, at, pre);
    lemma_forest_rows(shorter, parent, at, pre);
    lemma_node_rows(nodes.last(), parent, at + before.len(), pre);
    let from = forest_size(nodes.take(i)) as int;
    if i == nodes.len() - 1 {
        assert(nodes.take(i) =~= shorter);
        assert(rows.subrange(from, from + node_size(nodes[i])) =~= node_rows(
            nodes[i],
            parent,
            at + from,
            pre,
        ));
    } else {
        assert(shorter.take(i) =~= nodes.take(i));
        lemma_rows_of_one(shorter, parent, at, pre, i);
        assert(rows.subrange(from, from + node_size(nodes[i])) =~= before.subrange(
            from,
            from + node_size(nodes[i]),
        ));
    }
}

proof fn lemma_rows_hold_node(
    rows: Seq<FolderRowView>,
    node: FolderNode,
    parent: Option<int>,
    at: int,
    pre: Seq<FolderId>,
)
    requires
        0 <= at,
        at + node_size(node) <= rows.len(),
        rows.subrange(at, at + node_size(node)) == node_rows(node, parent, at, pre),
    ensures
        hold_node(rows, node, parent, at),
    decreases node,
{
    let own = node_rows(node, parent, at, pre);
    let below = forest_rows(node.children@, Some(at), at + 1, pre);
    assert(rows[at] == rows.subrange(at, at + node_size(node))[0]);
    assert(own.skip(1) =~= below);
    assert forall|i: int| 0 <= i < node.children@.len() implies hold_node(
        rows,
        #[trigger] node.children@[i],
        Some(at),
        at + 1 + forest_size(node.children@.take(i)),
    ) by {
        let child = node.children@[i];
        let from = forest_size(node.children@.take(i)) as int;
        lemma_rows_of_one(node.children@, Some(at), at + 1, pre, i);
        lemma_forest_rows(node.children@, Some(at), at + 1, pre);
        assert(rows.subrange(at + 1 + from, at + 1 + from + node_size(child)) =~= own.subrange(
            1 + from,
            1 + from + node_size(child),
        ));
        assert(own.subrange(1 + from, 1 + from + node_size(child)) =~= below.subrange(
            from,
            from + node_size(child),
        ));
        lemma_rows_hold_node(rows, child, Some(at), at + 1 + from, pre);
    }
}

/// The browser shows the whole tree: it has one row for each node, with the node's own name and
/// identifiers, below the row of the node that it lies in; message stores lie below no row.
pub proof fn the_whole_tree_is_shown(
    tree: &Vec<FolderNode>,
    preselected: &Vec<FolderId>,
    rows: Vec<FolderRow>,
)
    requires
        call_ensures(populate_tree_store, (tree, preselected), rows),
    ensures
        rows@.len() == forest_size(tree@),
        forall|i: int|
            0 <= i < tree@.len() ==> #[trigger] hold_node(
                rows_view(rows@),
                tree@[i],
                None,
                forest_size(tree@.take(i)) as int,
            ),
{
    let shown = rows_view(rows@);
    lemma_forest_rows(tree@, None, 0, preselected@);
    assert forall|i: int| 0 <= i < tree@.len() implies #[trigger] hold_node(
        shown,
        tree@[i],
        None,
        forest_size(tree@.take(i)) as int,
    ) by {
        lemma_rows_of_one(tree@, None, 0, preselected@, i);
        lemma_rows_hold_node(
            shown,
            tree@[i],
            None,
            forest_size(tree@.take(i)) as int,
            preselected@,
        );
    }
}

proof fn lemma_node_preselection(node: FolderNode, parent: Option<int>, at: int, pre: Seq<FolderId>)
    ensures
        forall|i: int|
            0 <= i < node_rows(node, parent, at, pre).len() ==> (#[trigger] node_rows(
                node,
                parent,
                at,
                pre,
            )[i]).preselected == lists_folder(
                pre,
                node_rows(node, parent, at, pre)[i].store_id,
                node_rows(node, parent, at, pre)[i].entry_id,
            ),
    decreases node,
{
    let below = forest_rows(node.children@, Some(at), at + 1, pre);
    lemma_forest_preselection(node.children@, Some(at), at + 1, pre);
    assert forall|i: int| 0 <= i < node_rows(node, parent, at, pre).len() implies (
    #[trigger] node_rows(node, parent, at, pre)[i]).preselected == lists_folder(
        pre,
        node_rows(node, parent, at, pre)[i].store_id,
        node_rows(node, parent, at, pre)[i].entry_id,
    ) by {
        if i > 0 {
            assert(node_rows(node, parent, at, pre)[i] == below[i - 1]);
        }
    }
}

proof fn lemma_forest_preselection(
    nodes: Seq<FolderNode>,
    parent: Option<int>,
    at: int,
    pre: Seq<FolderId>,
)
    ensures
        forall|i: int|
            0 <= i < forest_rows(nodes, parent, at, pre).len() ==> (#[trigger] forest_rows(
                nodes,
                parent,
                at,
                pre,
            )[i]).preselected == lists_folder(
                pre,
                forest_rows(nodes, parent, at, pre)[i].store_id,
                forest_rows(nodes, parent, at, pre)[i].entry_id,
            ),
    decreases nodes,
{
    if nodes.len() > 0 {
        let before = forest_rows(nodes.drop_last(), parent, at, pre);
        let last = node_rows(nodes.last(), parent, at + before.len(), pre);
        lemma_forest_preselection(nodes.drop_last(), parent, at, pre);
        lemma_node_preselection(nodes.last(), parent, at + before.len(), pre);
        assert forall|i: int| 0 <= i < forest_rows(nodes, parent, at, pre).len() implies (
        #[trigger] forest_rows(nodes, parent, at, pre)[i]).preselected == lists_folder(
            pre,
            forest_rows(nodes, parent, at, pre)[i].store_id,
            forest_rows(nodes, parent, at, pre)[i].entry_id,
        ) by {
            if i < before.len() {
                assert(forest_rows(nodes, parent, at, pre)[i] == before[i]);
            } else {
                assert(forest_rows(nodes, parent, at, pre)[i] == last[i - before.len()]);
            }
        }
    }
}

/// A row is selected at first exactly if a folder of the given list has both its identifiers, but
/// for the case of letters. So a folder that the list holds as it is, is selected, and with an
/// empty list nothing is.
pub proof fn the_given_folders_are_preselected(
    tree: &Vec<FolderNode>,
    preselected: &Vec<FolderId>,
    rows: Vec<FolderRow>,
    i: int,
    j: int,
)
    requires
        call_ensures(populate_tree_store, (tree, preselected), rows),
        0 <= i < rows@.len(),
    ensures
        rows@[i].preselected ==> exists|k: int|
            0 <= k < preselected@.len() && #[trigger] preselected@[k].store_id.id@.len()
                == rows@[i].store_id@.len() && preselected@[k].entry_id.id@.len()
                == rows@[i].entry_id@.len() && same_ignoring_case(
                preselected@[k].store_id.id@,
                rows@[i].store_id@,
            ) && same_ignoring_case(preselected@[k].entry_id.id@, rows@[i].entry_id@),
        0 <= j < preselected@.len() && same_ignoring_case(
            preselected@[j].store_id.id@,
            rows@[i].store_id@,
        ) && same_ignoring_case(preselected@[j].entry_id.id@, rows@[i].entry_id@)
            ==> rows@[i].preselected,
        0 <= j < preselected@.len() && preselected@[j].store_id.id@ == rows@[i].store_id@
            && preselected@[j].entry_id.id@ == rows@[i].entry_id@ ==> rows@[i].preselected,
        preselected@.len() == 0 ==> !rows@[i].preselected,
{
    lemma_forest_preselection(tree@, None, 0, preselected@);
    assert(rows_view(rows@)[i] == rows@[i]@);
    if 0 <= j < preselected@.len() {
        assert(same_ignoring_case(preselected@[j].store_id.id@, preselected@[j].store_id.id@));
        assert(same_ignoring_case(preselected@[j].entry_id.id@, preselected@[j].entry_id.id@));
    }
}

/// Whether a row stands for a folder, and not for a whole message store.
pub open spec fn is_folder_row(row: SelectedRow) -> bool {
    row.entry_id@.len() > 0
}

/// A selection and a row have the same store, entry and name.
pub open spec fn is_selection_of(selection: (FolderId, String), row: SelectedRow) -> bool {
    &&& selection.0.store_id.id@ == row.store_id@
    &&& selection.0.entry_id.id@ == row.entry_id@
    &&& selection.1@ == row.name@
}

proof fn lemma_selected_folders(rows: Seq<SelectedRow>)
    ensures
        selected_folders(rows).len() == rows.filter(|r: SelectedRow| is_folder_row(r)).len(),
        forall|i: int|
            0 <= i < selected_folders(rows).len() ==> (#[trigger] selected_folders(rows)[i])
                == (FolderSelection {
                store: rows.filter(|r: SelectedRow| is_folder_row(r))[i].store_id@,
                entry: rows.filter(|r: SelectedRow| is_folder_row(r))[i].entry_id@,
                name: rows.filter(|r: SelectedRow| is_folder_row(r))[i].name@,
            }),
    decreases rows.len(),
{
    reveal(Seq::filter);
    if rows.len() > 0 {
        lemma_selected_folders(rows.drop_last());
    }
}

/// Exactly the selected rows that stand for folders are selected, each with its own identifiers and
/// name, in the order of the rows; rows of whole message stores are left out.
pub proof fn selected_rows_are_taken(rows: &Vec<SelectedRow>, selections: Vec<(FolderId, String)>)
    requires
        call_ensures(read_selection, (rows,), selections),
    ensures
        ({
            let folders = rows@.filter(|r: SelectedRow| is_folder_row(r));
            &&& selections@.len() == folders.len()
            &&& forall|i: int|
                0 <= i < folders.len() ==> is_selection_of(#[trigger] selections@[i], folders[i])
        }),
{
    lemma_selected_folders(rows@);
    let folders = rows@.filter(|r: SelectedRow| is_folder_row(r));
    assert(selections_view(selections@).len() == selections@.len());
    assert forall|i: int| 0 <= i < folders.len() implies is_selection_of(
        #[trigger] selections@[i],
        folders[i],
    ) by {
        assert(selections_view(selections@)[i] == selected_folders(rows@)[i]);
    }
}

/// Whether the dialog gave the folders of the given rows.
pub open spec fn gave_rows(dialog: FolderBrowserDialog, rows: Seq<SelectedRow>) -> bool {
    let folders = rows.filter(|r: SelectedRow| is_folder_row(r));
    dialog.result matches Some(outcome) && (outcome matches Some(list) && (list@.len()
        == folders.len() && forall|i: int|
        0 <= i < folders.len() ==> is_selection_of(#[trigger] list@[i], folders[i])))
}

proof fn lemma_gave_rows(dialog: FolderBrowserDialog, rows: Seq<SelectedRow>)
    requires
        dialog.gave(selected_folders(rows)),
    ensures
        gave_rows(dialog, rows),
{
    lemma_selected_folders(rows);
    let folders = rows.filter(|r: SelectedRow| is_folder_row(r));
    let list = dialog.result->0->0;
    assert(selections_view(list@).len() == list@.len());
    assert forall|i: int| 0 <= i < folders.len() implies is_selection_of(
        #[trigger] list@[i],
        folders[i],
    ) by {
        assert(selections_view(list@)[i] == selected_folders(rows)[i]);
    }
}

/// OK gives the folders of the selected rows. Where there is none, it gives an empty list if any
/// number could be selected, and nothing if one had to be.
pub proof fn ok_gives_the_selected_folders(
    dialog: &mut FolderBrowserDialog,
    rows: &Vec<SelectedRow>,
)
    requires
        call_ensures(FolderBrowserDialog::on_ok, (dialog, rows), ()),
    ensures
        final(dialog).result is Some,
        rows@.filter(|r: SelectedRow| is_folder_row(r)).len() > 0 ==> gave_rows(
            *final(dialog),
            rows@,
        ),
        rows@.filter(|r: SelectedRow| is_folder_row(r)).len() == 0 ==> {
            &&& old(dialog).mode is Multi ==> (final(dialog).result->0 matches Some(list)
                && list@.len() == 0)
            &&& old(dialog).mode is Single ==> final(dialog).result->0 is None
        },
        final(dialog).mode == old(dialog).mode,
{
    lemma_selected_folders(rows@);
    if final(dialog).gave(selected_folders(rows@)) {
        lemma_gave_rows(*final(dialog), rows@);
    }
}

/// Cancel gives nothing, whatever was selected; and closing the window gives nothing if nothing was
/// decided before, and else leaves what was decided.
pub proof fn cancelling_gives_nothing(
    cancelled: &mut FolderBrowserDialog,
    closed: &mut FolderBrowserDialog,
)
    requires
        call_ensures(FolderBrowserDialog::on_cancel, (cancelled,), ()),
        call_ensures(FolderBrowserDialog::on_close_request, (closed,), ()),
    ensures
        final(cancelled).result is Some && final(cancelled).result->0 is None,
        old(closed).result is None ==> final(closed).result is Some && final(closed).result->0
            is None,
        old(closed).result is Some ==> final(closed).result == old(closed).result,
{
}

/// A double click closes the dialog exactly if one folder is to be selected and the row stands for
/// a folder, and then gives it; else it decides nothing.
pub proof fn a_double_click_takes_one_folder(
    dialog: &mut FolderBrowserDialog,
    rows: &Vec<SelectedRow>,
    close: bool,
)
    requires
        call_ensures(FolderBrowserDialog::on_row_activated, (dialog, rows), close),
    ensures
        close <==> old(dialog).mode is Single && rows@.filter(
            |r: SelectedRow| is_folder_row(r),
        ).len() > 0,
        close ==> gave_rows(*final(dialog), rows@),
        !close ==> final(dialog).result == old(dialog).result,
{
    lemma_selected_folders(rows@);
    if close {
        lemma_gave_rows(*final(dialog), rows@);
    }
}

/// A dialog whose tree could be loaded waits for the user and shows no message; one whose tree
/// could not be loaded has given nothing, and the message ends with the reason.
pub proof fn a_tree_that_fails_is_reported(
    loaded: &Result<(), String>,
    mode: SelectionMode,
    created: (FolderBrowserDialog, Option<String>),
)
    requires
        call_ensures(FolderBrowserDialog::new, (loaded, mode), created),
    ensures
        created.0.mode == mode,
        created.0.result is None <==> *loaded is Ok,
        created.1 is None <==> *loaded is Ok,
        *loaded matches Err(error) ==> {
            &&& created.0.result->0 is None
            &&& created.1->0@ == "Failed to load folder list:\n\n"@ + error@
            &&& error@.len() <= created.1->0@.len()
            &&& created.1->0@.skip(created.1->0@.len() - error@.len()) == error@
        },
{
    if let Err(error) = *loaded {
        let shown = created.1->0@;
        assert(shown.skip(shown.len() - error@.len()) =~= error@);
    }
}

/// The title speaks of one folder where one is to be selected, and of folders else; the source
/// without folders gives none, and no error.
pub proof fn the_title_fits_the_mode(
    mode: SelectionMode,
    title: &'static str,
    nothing: &NullFolderProvider,
    tree: Result<Vec<FolderNode>, String>,
)
    requires
        call_ensures(FolderBrowserDialog::title, (mode,), title),
        call_ensures(NullFolderProvider::load_folder_tree, (nothing,), tree),
    ensures
        mode is Single ==> title@ == "Select Folder"@,
        mode is Multi ==> title@ == "Select Folders"@,
        tree is Ok,
        tree->Ok_0@.len() == 0,
{
}

} // verus!
