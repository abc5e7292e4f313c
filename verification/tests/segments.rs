use honeybee::segments::{
    fetch_all_nodes, fetch_all_roads, fetch_one_node, fetch_one_road, SegMsg,
};

#[test]
fn full_refresh_of_nodes_is_bracketed() {
    assert_eq!(fetch_all_nodes(0), vec![SegMsg::Order(false), SegMsg::Order(true)]);
    assert_eq!(
        fetch_all_nodes(3),
        vec![
            SegMsg::Order(false),
            SegMsg::UpdateNode(0),
            SegMsg::UpdateNode(1),
            SegMsg::UpdateNode(2),
            SegMsg::Order(true),
        ]
    );
}

#[test]
fn one_node_is_updated_or_removed() {
    assert_eq!(fetch_one_node("rnd_1", 1), vec![SegMsg::UpdateNode(0)]);
    assert_eq!(fetch_one_node("rnd_1", 0), vec![SegMsg::RemoveNode("rnd_1".to_string())]);
}

#[test]
fn full_refresh_of_roads_is_bracketed() {
    assert_eq!(fetch_all_roads(0), vec![SegMsg::Order(false), SegMsg::Order(true)]);
    assert_eq!(
        fetch_all_roads(2),
        vec![
            SegMsg::Order(false),
            SegMsg::UpdateRoad(0),
            SegMsg::UpdateRoad(1),
            SegMsg::Order(true),
        ]
    );
}

#[test]
fn one_road_is_updated_without_marks() {
    assert_eq!(fetch_one_road(0), Vec::<SegMsg>::new());
    assert_eq!(fetch_one_road(1), vec![SegMsg::UpdateRoad(0)]);
    assert_eq!(fetch_one_road(2), vec![SegMsg::UpdateRoad(0)]);
}
