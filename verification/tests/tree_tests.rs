use lib::ui_tree::{
    active_compare_parent_index_paths, active_offer, canonical_native_compare_closed, collect_parent_index_paths_by_id_excluding,
    collect_transfer_like_ids, contract_all_row_ids, contract_slot_shape, count_nodes_by_id,
    count_pending_contract_projection_rows, direct_child, direct_path, find_effectively_visible_node_by_id,
    find_node_by_id, find_node_by_id_excluding, find_parent_of_id, find_visible_node_by_id_excluding,
    modal_hierarchy_is_canonical, native_contract_data_row, native_contract_header_row, node_by_index_path,
    projection_exact_top_level_column_order, projection_top_level_column_count, node_has_descendant_view_detail, node_has_trade_offer_shape,
    pending_contract_projection_row_paths, usable_node_path,
    recursive_view_detail_athlete_id, structurally_valid_compare_parent_index_paths,
    target_id_from_offer, visible_ready_compare_parent_index_path, UiNode,
};

fn n(id: &str, child: Vec<UiNode>) -> UiNode {
    UiNode { id: id.to_string(), visible: true, disabled: false, child }
}

fn hidden(id: &str, child: Vec<UiNode>) -> UiNode {
    UiNode { id: id.to_string(), visible: false, disabled: false, child }
}

fn compare(visible: bool) -> UiNode {
    UiNode {
        id: "compare_popup".to_string(),
        visible,
        disabled: false,
        child: vec![n("fade", vec![]), n("popup", vec![])],
    }
}

fn sample() -> UiNode {
    n(
        "root",
        vec![
            n("a", vec![n("x", vec![]), hidden("target", vec![])]),
            n("b", vec![n("target", vec![n("view_detail_42", vec![])]), n("transfer_3", vec![])]),
            n("negotiation_1", vec![n("target", vec![])]),
        ],
    )
}

#[test]
fn depth_first_searches() {
    let t = sample();
    let f = find_node_by_id(&t, "target").unwrap();
    assert!(!f.visible);
    assert!(find_node_by_id(&t, "nothing").is_none());
    assert_eq!(find_node_by_id(&t, "root").unwrap().id, "root");
    let f = find_node_by_id_excluding(&t, "target", "a").unwrap();
    assert_eq!(f.child.len(), 1);
    assert!(find_node_by_id_excluding(&t, "target", "root").is_none());
    let f = find_visible_node_by_id_excluding(&t, "target", "zzz").unwrap();
    assert!(f.visible && f.child.len() == 1);
    let f = find_effectively_visible_node_by_id(&t, "target").unwrap();
    assert_eq!(f.child.len(), 1);
    let p = find_parent_of_id(&t, "target").unwrap();
    assert_eq!(p.id, "a");
    assert_eq!(find_parent_of_id(&t, "view_detail_42").unwrap().id, "target");
}

#[test]
fn disabled_subtrees_hide_usable_nodes() {
    let t = n("root", vec![UiNode { id: "box".to_string(), visible: true, disabled: true, child: vec![n("go", vec![])] }]);
    assert!(find_effectively_visible_node_by_id(&t, "go").is_none());
    assert!(find_node_by_id(&t, "go").is_some());
}

#[test]
fn children_and_paths() {
    let t = sample();
    assert_eq!(direct_child(&t, "b").unwrap().child.len(), 2);
    assert!(direct_child(&t, "x").is_none());
    assert_eq!(direct_path(&t, &["b", "target", "view_detail_42"]).unwrap().id, "view_detail_42");
    assert!(direct_path(&t, &["b", "x"]).is_none());
    assert_eq!(direct_path(&t, &[]).unwrap().id, "root");
    assert_eq!(node_by_index_path(&t, &[1, 0, 0]).unwrap().id, "view_detail_42");
    assert!(node_by_index_path(&t, &[3]).is_none());
    assert_eq!(node_by_index_path(&t, &[]).unwrap().id, "root");
}

#[test]
fn counts() {
    let t = sample();
    assert_eq!(count_nodes_by_id(&t, "target"), 3);
    assert_eq!(count_nodes_by_id(&t, "root"), 1);
    assert_eq!(count_nodes_by_id(&t, "none"), 0);
    let row = "pts_trade_pending_contract_slot_test79_active";
    let rows = n(row, vec![n("list", vec![n(row, vec![]), n(row, vec![n(row, vec![])])])]);
    assert_eq!(count_pending_contract_projection_rows(&rows), 3);
}

#[test]
fn parent_paths_in_order() {
    let t = sample();
    let mut path = vec![9];
    let mut out = vec![vec![7]];
    collect_parent_index_paths_by_id_excluding(&t, "target", "negotiation_1", &mut path, &mut out);
    assert_eq!(path, vec![9]);
    assert_eq!(out, vec![vec![7], vec![9, 0], vec![9, 1]]);
}

#[test]
fn ids_in_the_tree() {
    let t = sample();
    assert_eq!(recursive_view_detail_athlete_id(&t), Some(42));
    assert!(node_has_descendant_view_detail(&t));
    assert_eq!(recursive_view_detail_athlete_id(&n("view_detail_x", vec![n("view_detail_7", vec![])])), Some(7));
    assert!(!node_has_descendant_view_detail(&n("view_detail_", vec![])));
    let mut ids = vec!["seed".to_string()];
    collect_transfer_like_ids(&t, &mut ids);
    assert_eq!(ids, vec!["seed", "transfer_3", "negotiation_1"]);
}

#[test]
fn contract_rows() {
    let list = n(
        "contract_all",
        vec![n("list", vec![n("contents", vec![n("row_a", vec![]), n("row_b", vec![])])])],
    );
    let t = n("root", vec![n("x", vec![list]), n("contract_all", vec![])]);
    let mut out = Vec::new();
    contract_all_row_ids(&t, &mut out);
    assert_eq!(out, vec!["row_a", "row_b"]);
}

fn slot() -> UiNode {
    let cols = [
        "position", "name", "team", "contract", "salary", "transfer_fee", "squad_status", "contract_state",
        "contract_limit", "action",
    ];
    n("slot", cols.iter().map(|c| n(c, vec![])).collect())
}

#[test]
fn contract_slot_shapes() {
    assert!(contract_slot_shape(&slot()));
    let mut partial = slot();
    partial.child.pop();
    assert!(!contract_slot_shape(&partial));
}

fn offer(submit_children: usize, modal: Option<UiNode>) -> UiNode {
    let mut children = vec![
        n(
            "data",
            vec![
                n("row1", vec![n("info", vec![n("header", vec![n("name", vec![])])])]),
                n(
                    "row2",
                    vec![
                        n("delegate", vec![]),
                        n("offer", (0..submit_children).map(|_| n("c", vec![])).collect()),
                        n("view_other", vec![]),
                        n("pts_trade_entry", vec![]),
                    ],
                ),
            ],
        ),
        hidden("pts_trade_modal_layer_template", vec![]),
        hidden("pts_trade_cash_template", vec![]),
    ];
    if let Some(m) = modal {
        children.push(m);
    }
    n("offer", children)
}

fn modal(cash_visible: bool) -> UiNode {
    n(
        "pts_trade_modal_layer",
        vec![
            n("pts_trade_modal_backdrop", vec![]),
            n("pts_trade_custom_compare", vec![]),
            UiNode { id: "pts_trade_cash_panel".to_string(), visible: cash_visible, disabled: false, child: vec![] },
        ],
    )
}

#[test]
fn offer_surface_shapes() {
    assert!(node_has_trade_offer_shape(&offer(0, None)));
    assert!(!node_has_trade_offer_shape(&offer(1, None)));
    let root = n("root", vec![n("screen", vec![offer(0, Some(modal(true)))])]);
    assert!(active_offer(&root, Some(&[0usize, 0][..])).is_some());
    assert!(active_offer(&root, Some(&[0usize][..])).is_none());
    assert!(active_offer(&root, None).is_none());
    assert!(modal_hierarchy_is_canonical(&root, Some(&[0usize, 0][..])));
    let broken = n("root", vec![n("screen", vec![offer(0, Some(modal(false)))])]);
    assert!(!modal_hierarchy_is_canonical(&broken, Some(&[0usize, 0][..])));
}

#[test]
fn compare_popups() {
    let root = n(
        "root",
        vec![
            n("host", vec![compare(false)]),
            n("pts_trade_modal_layer", vec![n("inner", vec![compare(true)])]),
            n("broken", vec![n("compare_popup", vec![n("fade", vec![])])]),
        ],
    );
    let all = structurally_valid_compare_parent_index_paths(&root);
    assert_eq!(all, vec![vec![0]]);
    assert_eq!(active_compare_parent_index_paths(&root), vec![vec![0]]);
    assert!(canonical_native_compare_closed(&root));
    assert_eq!(visible_ready_compare_parent_index_path(&root), None);

    let open = n("root", vec![n("host", vec![compare(true)])]);
    assert!(!canonical_native_compare_closed(&open));
    assert_eq!(visible_ready_compare_parent_index_path(&open), Some(vec![0]));

    let hidden_host = n("root", vec![hidden("host", vec![compare(true)])]);
    assert!(active_compare_parent_index_paths(&hidden_host).is_empty());

    let two = n("root", vec![n("h1", vec![compare(true)]), n("h2", vec![compare(true)])]);
    assert_eq!(visible_ready_compare_parent_index_path(&two), None);
}

#[test]
fn pending_rows_to_remove() {
    let row = "pts_trade_pending_contract_slot_test79_active";
    let t = n(
        "root",
        vec![
            n("list", vec![n("a", vec![]), n(row, vec![n(row, vec![])]), n("pts_trade_pending_contract_slot_test79_x", vec![])]),
            n(row, vec![]),
        ],
    );
    assert_eq!(pending_contract_projection_row_paths(&t), vec![vec![0, 1], vec![0, 2], vec![1]]);
    assert!(pending_contract_projection_row_paths(&n("root", vec![n("a", vec![])])).is_empty());
}

#[test]
fn paths_to_usable_nodes() {
    let t = sample();
    assert_eq!(usable_node_path(&t, "target"), Some(vec![1, 0]));
    assert_eq!(usable_node_path(&t, "root"), Some(vec![]));
    assert_eq!(usable_node_path(&t, "nothing"), None);
    let f = find_effectively_visible_node_by_id(&t, "target").unwrap();
    assert!(std::ptr::eq(f, node_by_index_path(&t, &[1, 0]).unwrap()));
}

#[test]
fn contract_rows_and_columns() {
    let mut row = slot();
    assert!(native_contract_header_row(&row));
    assert!(!native_contract_data_row(&row));
    row.child[1].child.push(n("view_detail_5", vec![]));
    assert!(native_contract_data_row(&row));
    assert!(!native_contract_header_row(&row));
    let mut added = slot();
    added.id = "pts_trade_pending_contract_slot_test79_active".to_string();
    assert!(!native_contract_header_row(&added));
    assert_eq!(projection_top_level_column_count(&slot()), 10);
    assert!(projection_exact_top_level_column_order(&slot()));
    let mut swapped = slot();
    swapped.child.swap(0, 1);
    assert!(!projection_exact_top_level_column_order(&swapped));
    assert_eq!(projection_top_level_column_count(&swapped), 10);
    swapped.child.pop();
    assert_eq!(projection_top_level_column_count(&swapped), 9);
}

#[test]
fn offer_target_from_name_row() {
    let name = n("name", vec![n("label", vec![]), n("view_detail_x", vec![]), n("view_detail_77", vec![]), n("view_detail_8", vec![])]);
    let offer = n(
        "transfer_offer",
        vec![n("data", vec![n("row1", vec![n("info", vec![n("header", vec![name])])])])],
    );
    assert_eq!(target_id_from_offer(&offer), Some(77));
    let deep = n(
        "transfer_offer",
        vec![n("data", vec![n("row1", vec![n("info", vec![n("header", vec![n("name", vec![n("wrap", vec![n("view_detail_5", vec![])])])])])])])],
    );
    assert_eq!(target_id_from_offer(&deep), None);
    let broken = n("transfer_offer", vec![n("data", vec![n("row2", vec![])])]);
    assert_eq!(target_id_from_offer(&broken), None);
}
