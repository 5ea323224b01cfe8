//! The folder tree of Outlook's mailboxes, loaded once and kept.

use vstd::prelude::*;

use crate::gui::folder_browser::{
    copy_forest, equal_views_are_same_nodes, forest_size, forest_view, forest_view_is_pointwise,
    node_size, node_view, same_node, FolderNode, FolderNodeView, FolderProvider,
};
use crate::text::hex_char;

verus! {

/// The hexadecimal text of bytes: two digits for each byte, with small letters.
pub open spec fn hex_text(bytes: Seq<u8>) -> Seq<char>
    decreases bytes.len(),
{
    if bytes.len() == 0 {
        Seq::empty()
    } else {
        hex_text(bytes.drop_last()) + seq![
            hex_char((bytes.last() / 16) as nat),
            hex_char((bytes.last() % 16) as nat),
        ]
    }
}

/// The digit that a character stands for.
pub open spec fn hex_digit(c: char) -> int {
    if c as int >= 97 {
        c as int - 87
    } else {
        c as int - 48
    }
}

/// The hexadecimal text is twice as long as the bytes, and the bytes can be read off it; so
/// different bytes have different texts.
pub proof fn hex_text_is_faithful(bytes: Seq<u8>)
    ensures
        hex_text(bytes).len() == 2 * bytes.len(),
        forall|i: int|
            0 <= i < bytes.len() ==> (#[trigger] bytes[i]) as int == 16 * hex_digit(
                hex_text(bytes)[2 * i],
            ) + hex_digit(hex_text(bytes)[2 * i + 1]),
    decreases bytes.len(),
{
    if bytes.len() > 0 {
        let shorter = bytes.drop_last();
        let last = bytes.last();
        hex_text_is_faithful(shorter);
        assert forall|i: int| 0 <= i < bytes.len() implies (#[trigger] bytes[i]) as int == 16
            * hex_digit(hex_text(bytes)[2 * i]) + hex_digit(hex_text(bytes)[2 * i + 1]) by {
            if i < shorter.len() {
                assert(bytes[i] == shorter[i]);
                assert(hex_text(bytes)[2 * i] == hex_text(shorter)[2 * i]);
                assert(hex_text(bytes)[2 * i + 1] == hex_text(shorter)[2 * i + 1]);
            } else {
                assert(hex_text(bytes)[2 * i] == hex_char((last / 16) as nat));
                assert(hex_text(bytes)[2 * i + 1] == hex_char((last % 16) as nat));
                lemma_digit_reads_back((last / 16) as nat);
                lemma_digit_reads_back((last % 16) as nat);
            }
        }
    }
}

proof fn lemma_digit_reads_back(d: nat)
    requires
        d < 16,
    ensures
        hex_digit(hex_char(d)) == d,
{
}

/// The character of a hexadecimal digit.
fn hex_digit_char(d: u8) -> (c: char)
    requires
        d < 16,
    ensures
        c == hex_char(d as nat),
{
    if d < 10 {
        (48u8 + d) as char
    } else {
        (87u8 + d) as char
    }
}

/// The hexadecimal text of bytes.
pub fn hex_encode(bytes: &[u8]) -> (text: String)
    ensures
        text@ == hex_text(bytes@),
{
    let mut text = String::new();
    let mut i: usize = 0;
    while i < bytes.len()
        invariant
            i <= bytes@.len(),
            text@ == hex_text(bytes@.take(i as int)),
        decreases bytes.len() - i,
    {
        let b: u8 = bytes[i];
        let ghost before = text@;
        text.push(hex_digit_char(b / 16));
        text.push(hex_digit_char(b % 16));
        i = i + 1;
        assert(bytes@.take(i as int).drop_last() =~= bytes@.take(i - 1));
        assert(text@ =~= before + seq![hex_char((b / 16) as nat), hex_char((b % 16) as nat)]);
    }
    assert(bytes@.take(i as int) =~= bytes@);
    text
}

/// A folder as the message store describes it.
#[derive(Debug)]
pub struct FolderTreeNode {
    pub name: String,
    pub store_id_hex: String,
    pub entry_id_hex: String,
    pub children: Vec<FolderTreeNode>,
}

/// What becomes of a folder in the folder browser.
pub open spec fn converted(node: FolderTreeNode) -> FolderNodeView
    decreases node,
{
    FolderNodeView {
        name: node.name@,
        store_id: node.store_id_hex@,
        entry_id: node.entry_id_hex@,
        children: converted_all(node.children@),
    }
}

/// What becomes of folders in the folder browser.
pub open spec fn converted_all(nodes: Seq<FolderTreeNode>) -> Seq<FolderNodeView>
    decreases nodes,
{
    if nodes.len() == 0 {
        Seq::empty()
    } else {
        converted_all(nodes.drop_last()).push(converted(nodes.last()))
    }
}

/// The given folders, for the folder browser.
fn convert_nodes(nodes: &Vec<FolderTreeNode>) -> (result: Vec<FolderNode>)
    ensures
        forest_view(result@) == converted_all(nodes@),
    decreases nodes,
{
    let mut result: Vec<FolderNode> = Vec::new();
    let mut i: usize = 0;
    while i < nodes.len()
        invariant
            i <= nodes.len(),
            forest_view(result@) == converted_all(nodes@.take(i as int)),
        decreases nodes.len() - i,
    {
        let children = convert_nodes(&nodes[i].children);
        let node = FolderNode {
            name: nodes[i].name.clone(),
            store_id: nodes[i].store_id_hex.clone(),
            entry_id: nodes[i].entry_id_hex.clone(),
            children,
        };
        assert(node_view(node) == converted(nodes@[i as int]));
        let ghost before = result@;
        result.push(node);
        i = i + 1;
        assert(result@.drop_last() =~= before);
        assert(nodes@.take(i as int).drop_last() =~= nodes@.take(i - 1));
        assert(nodes@.take(i as int).last() == nodes@[i - 1]);
    }
    assert(nodes@.take(i as int) =~= nodes@);
    result
}

/// A folder with everything below it, for the folder browser.
pub fn convert_node(node: &FolderTreeNode) -> (result: FolderNode)
    ensures
        node_view(result) == converted(*node),
{
    FolderNode {
        name: node.name.clone(),
        store_id: node.store_id_hex.clone(),
        entry_id: node.entry_id_hex.clone(),
        children: convert_nodes(&node.children),
    }
}

/// How opening one mailbox went.
#[derive(Debug)]
pub enum StoreOutcome {
    /// It could not be opened, or its folders could not be read.
    Skipped,
    /// Its folders were read. The root folder's identifier may be missing.
    Loaded {
        display_name: String,
        entry_id: Vec<u8>,
        folders: Vec<FolderTreeNode>,
        root_entry_id: Option<Vec<u8>>,
    },
}

/// How listing the mailboxes went.
#[derive(Debug)]
pub enum MailboxListing {
    /// Outlook could not be reached, for the given reason.
    LogonFailed(String),
    /// The mailboxes could not be listed, for the given reason.
    EnumerationFailed(String),
    /// The mailboxes were listed and opened, one after the other.
    Stores(Vec<StoreOutcome>),
}

/// The node of a mailbox.
pub open spec fn store_node(outcome: StoreOutcome) -> Option<FolderNodeView> {
    match outcome {
        StoreOutcome::Skipped => None,
        StoreOutcome::Loaded { display_name, entry_id, folders, root_entry_id } => Some(
            FolderNodeView {
                name: display_name@,
                store_id: hex_text(entry_id@),
                entry_id: match root_entry_id {
                    Some(root) => hex_text(root@),
                    None => Seq::empty(),
                },
                children: converted_all(folders@),
            },
        ),
    }
}

/// The nodes of the mailboxes that were opened, in their order.
pub open spec fn store_nodes(outcomes: Seq<StoreOutcome>) -> Seq<FolderNodeView>
    decreases outcomes.len(),
{
    if outcomes.len() == 0 {
        Seq::empty()
    } else {
        match store_node(outcomes.last()) {
            Some(node) => store_nodes(outcomes.drop_last()).push(node),
            None => store_nodes(outcomes.drop_last()),
        }
    }
}

/// The nodes of the mailboxes that were opened, in their order.
fn collect_stores(outcomes: &Vec<StoreOutcome>) -> (nodes: Vec<FolderNode>)
    ensures
        forest_view(nodes@) == store_nodes(outcomes@),
{
    let mut nodes: Vec<FolderNode> = Vec::new();
    let mut i: usize = 0;
    while i < outcomes.len()
        invariant
            i <= outcomes.len(),
            forest_view(nodes@) == store_nodes(outcomes@.take(i as int)),
        decreases outcomes.len() - i,
    {
        assert(outcomes@.take(i + 1).drop_last() =~= outcomes@.take(i as int));
        assert(outcomes@.take(i + 1).last() == outcomes@[i as int]);
        match &outcomes[i] {
            StoreOutcome::Skipped => {},
            StoreOutcome::Loaded { display_name, entry_id, folders, root_entry_id } => {
                let root = match root_entry_id {
                    Some(bytes) => hex_encode(bytes.as_slice()),
                    None => String::new(),
                };
                let node = FolderNode {
                    name: display_name.clone(),
                    store_id: hex_encode(entry_id.as_slice()),
                    entry_id: root,
                    children: convert_nodes(folders),
                };
                assert(store_node(outcomes@[i as int]) == Some(node_view(node)));
                let ghost before = nodes@;
                nodes.push(node);
                assert(nodes@.drop_last() =~= before);
            },
        }
        i = i + 1;
    }
    assert(outcomes@.take(i as int) =~= outcomes@);
    nodes
}

proof fn lemma_forest_view_len(nodes: Seq<FolderNode>)
    ensures
        forest_view(nodes).len() == nodes.len(),
    decreases nodes.len(),
{
    if nodes.len() > 0 {
        lemma_forest_view_len(nodes.drop_last());
    }
}

/// A source of folders that were loaded before, or of the error that was met.
#[derive(Debug)]
pub struct MapiFolderProvider {
    pub tree: Result<Vec<FolderNode>, String>,
}

/// Whether a loaded tree holds the given nodes.
pub open spec fn tree_holds(
    tree: Result<Vec<FolderNode>, String>,
    nodes: Seq<FolderNodeView>,
) -> bool {
    tree matches Ok(list) && forest_view(list@) == nodes
}

/// Whether a tree could not be loaded, for the given reason.
pub open spec fn tree_failed(tree: Result<Vec<FolderNode>, String>, reason: Seq<char>) -> bool {
    tree matches Err(error) && error@ == reason
}

/// Two trees have the same contents.
pub open spec fn same_tree(
    a: Result<Vec<FolderNode>, String>,
    b: Result<Vec<FolderNode>, String>,
) -> bool {
    match (a, b) {
        (Ok(x), Ok(y)) => forest_view(x@) == forest_view(y@),
        (Err(x), Err(y)) => x@ == y@,
        _ => false,
    }
}

impl MapiFolderProvider {
    /// The folder tree of the mailboxes that could be opened. It is an error if Outlook cannot be
    /// reached, if the mailboxes cannot be listed, if there are none, and if none can be opened.
    pub fn load(listing: &MailboxListing) -> (provider: MapiFolderProvider)
        ensures
            match *listing {
                MailboxListing::LogonFailed(e) => tree_failed(
                    provider.tree,
                    "Failed to connect to Outlook: "@ + e@,
                ),
                MailboxListing::EnumerationFailed(e) => tree_failed(
                    provider.tree,
                    "Failed to enumerate mailboxes: "@ + e@,
                ),
                MailboxListing::Stores(outcomes) => if outcomes@.len() == 0 {
                    tree_failed(provider.tree, "No mailboxes found in Outlook profile."@)
                } else if store_nodes(outcomes@).len() == 0 {
                    tree_failed(provider.tree, "Could not open any mailboxes."@)
                } else {
                    tree_holds(provider.tree, store_nodes(outcomes@))
                },
            },
    {
        let tree = match listing {
            MailboxListing::LogonFailed(e) => Err(
                "Failed to connect to Outlook: ".to_owned().concat(e.as_str()),
            ),
            MailboxListing::EnumerationFailed(e) => Err(
                "Failed to enumerate mailboxes: ".to_owned().concat(e.as_str()),
            ),
            MailboxListing::Stores(outcomes) => {
                if outcomes.len() == 0 {
                    Err("No mailboxes found in Outlook profile.".to_owned())
                } else {
                    let nodes = collect_stores(outcomes);
                    proof {
                        lemma_forest_view_len(nodes@);
                    }
                    if nodes.len() == 0 {
                        Err("Could not open any mailboxes.".to_owned())
                    } else {
                        Ok(nodes)
                    }
                }
            },
        };
        MapiFolderProvider { tree }
    }

    /// A source of the given folders.
    pub fn from_tree(tree: Vec<FolderNode>) -> (provider: MapiFolderProvider)
        ensures
            provider.tree == Ok::<Vec<FolderNode>, String>(tree),
    {
        MapiFolderProvider { tree: Ok(tree) }
    }

    /// The folders, or the error that was met.
    pub fn into_tree(self) -> (tree: Result<Vec<FolderNode>, String>)
        ensures
            tree == self.tree,
    {
        self.tree
    }
}

impl FolderProvider for MapiFolderProvider {
    fn load_folder_tree(&self) -> (tree: Result<Vec<FolderNode>, String>)
        ensures
            same_tree(tree, self.tree),
    {
        match &self.tree {
            Ok(nodes) => Ok(copy_forest(nodes)),
            Err(error) => Err(error.clone()),
        }
    }
}

/// A node stands for a folder: it has its name and identifiers, and the nodes below it stand for
/// the folders in it, one by one.
pub open spec fn stands_for(node: FolderNode, folder: FolderTreeNode) -> bool
    decreases folder,
{
    &&& node.name@ == folder.name@
    &&& node.store_id@ == folder.store_id_hex@
    &&& node.entry_id@ == folder.entry_id_hex@
    &&& node.children@.len() == folder.children@.len()
    &&& forall|i: int|
        0 <= i < folder.children@.len() ==> stands_for(
            node.children@[i],
            #[trigger] folder.children@[i],
        )
}

/// The number of folders in trees of folders.
pub open spec fn folder_count(folders: Seq<FolderTreeNode>) -> nat
    decreases folders,
{
    if folders.len() == 0 {
        0
    } else {
        folder_count(folders.drop_last()) + 1 + folder_count(folders.last().children@)
    }
}

proof fn lemma_converted_all(folders: Seq<FolderTreeNode>)
    ensures
        converted_all(folders).len() == folders.len(),
        forall|i: int|
            0 <= i < folders.len() ==> #[trigger] converted_all(folders)[i] == converted(
                folders[i],
            ),
    decreases folders.len(),
{
    if folders.len() > 0 {
        lemma_converted_all(folders.drop_last());
        assert forall|i: int| 0 <= i < folders.len() implies #[trigger] converted_all(folders)[i]
            == converted(folders[i]) by {
            if i < folders.len() - 1 {
                assert(converted_all(folders)[i] == converted_all(folders.drop_last())[i]);
            }
        }
    }
}

proof fn lemma_stands_for(node: FolderNode, folder: FolderTreeNode)
    requires
        node_view(node) == converted(folder),
    ensures
        stands_for(node, folder),
    decreases folder,
{
    lemma_converted_all(folder.children@);
    forest_view_is_pointwise(node.children@);
    assert forall|i: int| 0 <= i < folder.children@.len() implies stands_for(
        node.children@[i],
        #[trigger] folder.children@[i],
    ) by {
        assert(forest_view(node.children@)[i] == converted_all(folder.children@)[i]);
        lemma_stands_for(node.children@[i], folder.children@[i]);
    }
}

proof fn lemma_folder_count(nodes: Seq<FolderNode>, folders: Seq<FolderTreeNode>)
    requires
        nodes.len() == folders.len(),
        forall|i: int| 0 <= i < folders.len() ==> stands_for(nodes[i], #[trigger] folders[i]),
    ensures
        forest_size(nodes) == folder_count(folders),
    decreases folders,
{
    if folders.len() > 0 {
        let shorter = folders.drop_last();
        let fewer = nodes.drop_last();
        assert forall|i: int| 0 <= i < shorter.len() implies stands_for(
            fewer[i],
            #[trigger] shorter[i],
        ) by {
            assert(stands_for(nodes[i], folders[i]));
        }
        lemma_folder_count(fewer, shorter);
        assert(stands_for(nodes[folders.len() - 1], folders[folders.len() - 1]));
        lemma_folder_count(nodes.last().children@, folders.last().children@);
        assert(node_size(nodes.last()) == 1 + forest_size(nodes.last().children@));
    }
}

/// A folder that is converted for the browser keeps its name, its identifiers and every folder
/// below it.
pub proof fn a_converted_folder_is_complete(folder: &FolderTreeNode, node: FolderNode)
    requires
        call_ensures(convert_node, (folder,), node),
    ensures
        stands_for(node, *folder),
        forest_size(node.children@) == folder_count(folder.children@),
{
    lemma_stands_for(node, *folder);
    assert forall|i: int| 0 <= i < folder.children@.len() implies stands_for(
        node.children@[i],
        #[trigger] folder.children@[i],
    ) by {}
    lemma_folder_count(node.children@, folder.children@);
}

/// Whether a mailbox was opened.
pub open spec fn was_opened(outcome: StoreOutcome) -> bool {
    outcome is Loaded
}

/// A node stands for an opened mailbox: it has the mailbox's name, the text of its identifier and
/// of that of its root folder, and its folders below it, one by one.
pub open spec fn stands_for_store(node: FolderNode, outcome: StoreOutcome) -> bool {
    outcome matches StoreOutcome::Loaded { display_name, entry_id, folders, root_entry_id } && {
        &&& node.name@ == display_name@
        &&& node.store_id@ == hex_text(entry_id@)
        &&& root_entry_id matches Some(root) ==> node.entry_id@ == hex_text(root@)
        &&& root_entry_id is None ==> node.entry_id@.len() == 0
        &&& node.children@.len() == folders@.len()
        &&& forall|i: int|
            0 <= i < folders@.len() ==> stands_for(node.children@[i], #[trigger] folders@[i])
    }
}

/// The number of folders in the mailboxes that were opened.
pub open spec fn opened_folder_count(outcomes: Seq<StoreOutcome>) -> nat
    decreases outcomes.len(),
{
    if outcomes.len() == 0 {
        0
    } else {
        opened_folder_count(outcomes.drop_last()) + (match outcomes.last() {
            StoreOutcome::Skipped => 0,
            StoreOutcome::Loaded { folders, .. } => folder_count(folders@),
        })
    }
}

proof fn lemma_stands_for_store(node: FolderNode, outcome: StoreOutcome)
    requires
        store_node(outcome) == Some(node_view(node)),
    ensures
        stands_for_store(node, outcome),
        outcome matches StoreOutcome::Loaded { folders, .. } ==> forest_size(node.children@)
            == folder_count(folders@),
{
    if let StoreOutcome::Loaded { display_name, entry_id, folders, root_entry_id } = outcome {
        lemma_converted_all(folders@);
        forest_view_is_pointwise(node.children@);
        assert forall|i: int| 0 <= i < folders@.len() implies stands_for(
            node.children@[i],
            #[trigger] folders@[i],
        ) by {
            assert(forest_view(node.children@)[i] == converted_all(folders@)[i]);
            lemma_stands_for(node.children@[i], folders@[i]);
        }
        lemma_folder_count(node.children@, folders@);
    }
}

proof fn lemma_store_nodes(nodes: Seq<FolderNode>, outcomes: Seq<StoreOutcome>)
    requires
        forest_view(nodes) == store_nodes(outcomes),
    ensures
        ({
            let opened = outcomes.filter(|o: StoreOutcome| was_opened(o));
            &&& nodes.len() == opened.len()
            &&& forall|i: int|
                0 <= i < opened.len() ==> #[trigger] stands_for_store(nodes[i], opened[i])
            &&& forest_size(nodes) == opened.len() + opened_folder_count(outcomes)
        }),
    decreases outcomes.len(),
{
    reveal(Seq::filter);
    forest_view_is_pointwise(nodes);
    if outcomes.len() > 0 {
        let shorter = outcomes.drop_last();
        match store_node(outcomes.last()) {
            None => {
                lemma_store_nodes(nodes, shorter);
            },
            Some(view) => {
                assert(store_nodes(outcomes).drop_last() =~= store_nodes(shorter));
                assert(forest_view(nodes).drop_last() =~= forest_view(nodes.drop_last()));
                assert(store_nodes(outcomes).last() == view);
                assert(forest_view(nodes).last() == node_view(nodes.last()));
                lemma_store_nodes(nodes.drop_last(), shorter);
                lemma_stands_for_store(nodes.last(), outcomes.last());
                let opened = outcomes.filter(|o: StoreOutcome| was_opened(o));
                let earlier = shorter.filter(|o: StoreOutcome| was_opened(o));
                assert(opened =~= earlier.push(outcomes.last()));
                assert(node_size(nodes.last()) == 1 + forest_size(nodes.last().children@));
                assert forall|i: int| 0 <= i < opened.len() implies #[trigger] stands_for_store(
                    nodes[i],
                    opened[i],
                ) by {
                    if i < earlier.len() {
                        assert(stands_for_store(nodes.drop_last()[i], earlier[i]));
                    }
                }
            },
        }
    }
}

/// The tree that is loaded holds every mailbox that was opened, in their order, and every folder in
/// it, with its own name and identifiers and below the folder that it lies in. So it has as many
/// nodes as there are opened mailboxes and folders in them. There is a tree exactly if a mailbox
/// was opened.
pub proof fn every_folder_is_loaded(outcomes: Vec<StoreOutcome>, provider: MapiFolderProvider)
    requires
        call_ensures(
            MapiFolderProvider::load,
            (&MailboxListing::Stores(outcomes),),
            provider,
        ),
    ensures
        ({
            let opened = outcomes@.filter(|o: StoreOutcome| was_opened(o));
            &&& provider.tree is Ok <==> opened.len() > 0
            &&& provider.tree matches Ok(nodes) ==> {
                &&& nodes@.len() == opened.len()
                &&& forall|i: int|
                    0 <= i < opened.len() ==> #[trigger] stands_for_store(nodes@[i], opened[i])
                &&& forest_size(nodes@) == opened.len() + opened_folder_count(outcomes@)
            }
        }),
{
    reveal(Seq::filter);
    lemma_number_of_stores(outcomes@);
    if let Ok(nodes) = provider.tree {
        lemma_store_nodes(nodes@, outcomes@);
    }
}

proof fn lemma_number_of_stores(outcomes: Seq<StoreOutcome>)
    ensures
        store_nodes(outcomes).len() == outcomes.filter(|o: StoreOutcome| was_opened(o)).len(),
    decreases outcomes.len(),
{
    reveal(Seq::filter);
    if outcomes.len() > 0 {
        lemma_number_of_stores(outcomes.drop_last());
    }
}

/// A mailbox that cannot be opened does not keep the others out: the tree is the one that is loaded
/// without it.
pub proof fn a_closed_mailbox_hides_no_other(before: Seq<StoreOutcome>, after: Seq<StoreOutcome>)
    ensures
        store_nodes(before + seq![StoreOutcome::Skipped] + after) == store_nodes(before + after),
    decreases after.len(),
{
    let with = before + seq![StoreOutcome::Skipped] + after;
    let without = before + after;
    if after.len() == 0 {
        assert(with.drop_last() =~= before);
        assert(without =~= before);
    } else {
        assert(with.drop_last() =~= before + seq![StoreOutcome::Skipped] + after.drop_last());
        assert(without.drop_last() =~= before + after.drop_last());
        a_closed_mailbox_hides_no_other(before, after.drop_last());
    }
}

/// Where Outlook cannot be reached, or its mailboxes cannot be listed, there is no tree, and the
/// error ends with the reason; the two are told apart, and neither is the error of a profile
/// without mailboxes.
pub proof fn a_failed_listing_is_reported(
    reason: String,
    unreached: MapiFolderProvider,
    unlisted: MapiFolderProvider,
)
    requires
        call_ensures(
            MapiFolderProvider::load,
            (&MailboxListing::LogonFailed(reason),),
            unreached,
        ),
        call_ensures(
            MapiFolderProvider::load,
            (&MailboxListing::EnumerationFailed(reason),),
            unlisted,
        ),
    ensures
        unreached.tree matches Err(error) && reason@.len() < error@.len() && error@.skip(
            error@.len() - reason@.len(),
        ) == reason@,
        unlisted.tree matches Err(error) && reason@.len() < error@.len() && error@.skip(
            error@.len() - reason@.len(),
        ) == reason@,
        unreached.tree->Err_0@ == "Failed to connect to Outlook: "@ + reason@,
        unlisted.tree->Err_0@ == "Failed to enumerate mailboxes: "@ + reason@,
        unreached.tree->Err_0@ != unlisted.tree->Err_0@,
{
    reveal_strlit("Failed to connect to Outlook: ");
    reveal_strlit("Failed to enumerate mailboxes: ");
    let a = unreached.tree->Err_0@;
    let b = unlisted.tree->Err_0@;
    assert(a.skip(a.len() - reason@.len()) =~= reason@);
    assert(b.skip(b.len() - reason@.len()) =~= reason@);
    assert(a[10] == 'c');
    assert(b[10] == 'e');
}

/// What was loaded is given again each time it is asked for, down to the last folder, or the same
/// error.
pub proof fn the_loaded_tree_is_given_again(
    provider: &MapiFolderProvider,
    tree: Result<Vec<FolderNode>, String>,
)
    requires
        call_ensures(MapiFolderProvider::load_folder_tree, (provider,), tree),
    ensures
        tree is Ok <==> provider.tree is Ok,
        tree matches Ok(nodes) ==> {
            &&& nodes@.len() == provider.tree->Ok_0@.len()
            &&& forall|i: int|
                0 <= i < nodes@.len() ==> #[trigger] same_node(
                    nodes@[i],
                    provider.tree->Ok_0@[i],
                )
        },
        tree matches Err(error) ==> error@ == provider.tree->Err_0@,
{
    if let Ok(nodes) = tree {
        let kept = provider.tree->Ok_0;
        forest_view_is_pointwise(nodes@);
        forest_view_is_pointwise(kept@);
        assert forall|i: int| 0 <= i < nodes@.len() implies #[trigger] same_node(
            nodes@[i],
            kept@[i],
        ) by {
            assert(forest_view(nodes@)[i] == forest_view(kept@)[i]);
            equal_views_are_same_nodes(nodes@[i], kept@[i]);
        }
    }
}

/// A profile without mailboxes and one of which no mailbox could be opened are told apart, and from
/// all else.
pub proof fn missing_mailboxes_are_reported(
    outcomes: Vec<StoreOutcome>,
    provider: MapiFolderProvider,
)
    requires
        call_ensures(
            MapiFolderProvider::load,
            (&MailboxListing::Stores(outcomes),),
            provider,
        ),
    ensures
        outcomes@.len() == 0 ==> provider.tree is Err && provider.tree->Err_0@
            == "No mailboxes found in Outlook profile."@,
        outcomes@.len() > 0 && (forall|i: int|
            0 <= i < outcomes@.len() ==> #[trigger] outcomes@[i] is Skipped) ==> provider.tree is Err
            && provider.tree->Err_0@ == "Could not open any mailboxes."@,
{
    if forall|i: int| 0 <= i < outcomes@.len() ==> #[trigger] outcomes@[i] is Skipped {
        lemma_nothing_opened(outcomes@);
    }
}

proof fn lemma_nothing_opened(outcomes: Seq<StoreOutcome>)
    requires
        forall|i: int| 0 <= i < outcomes.len() ==> #[trigger] outcomes[i] is Skipped,
    ensures
        store_nodes(outcomes).len() == 0,
    decreases outcomes.len(),
{
    if outcomes.len() > 0 {
        assert(outcomes[outcomes.len() - 1] is Skipped);
        lemma_nothing_opened(outcomes.drop_last());
    }
}

/// Bytes are written as two small hexadecimal digits each, from which they can be read.
pub proof fn bytes_are_read_off_their_text(bytes: &[u8], text: String, i: int)
    requires
        call_ensures(hex_encode, (bytes,), text),
        0 <= i < bytes@.len(),
    ensures
        text@.len() == 2 * bytes@.len(),
        bytes@[i] == 16 * hex_digit(text@[2 * i]) + hex_digit(text@[2 * i + 1]),
        '0' <= text@[2 * i] <= '9' || 'a' <= text@[2 * i] <= 'f',
        '0' <= text@[2 * i + 1] <= '9' || 'a' <= text@[2 * i + 1] <= 'f',
{
    hex_text_is_faithful(bytes@);
    lemma_hex_digits(bytes@, i);
}

proof fn lemma_hex_digits(bytes: Seq<u8>, i: int)
    requires
        0 <= i < bytes.len(),
    ensures
        hex_text(bytes).len() == 2 * bytes.len(),
        hex_text(bytes)[2 * i] == hex_char((bytes[i] / 16) as nat),
        hex_text(bytes)[2 * i + 1] == hex_char((bytes[i] % 16) as nat),
    decreases bytes.len(),
{
    let shorter = bytes.drop_last();
    hex_text_is_faithful(bytes);
    hex_text_is_faithful(shorter);
    if i < shorter.len() {
        lemma_hex_digits(shorter, i);
    }
}

/// A source hands out the tree that it was made of, or the error that it met.
pub proof fn a_source_hands_out_its_tree(
    tree: Vec<FolderNode>,
    provider: MapiFolderProvider,
    loaded: MapiFolderProvider,
    given: Result<Vec<FolderNode>, String>,
)
    requires
        call_ensures(MapiFolderProvider::from_tree, (tree,), provider),
        call_ensures(MapiFolderProvider::into_tree, (loaded,), given),
    ensures
        provider.tree is Ok,
        provider.tree->Ok_0@ == tree@,
        given == loaded.tree,
{
}

} // verus!
