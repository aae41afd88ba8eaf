use script::radio::{InputElement, InputType, ListedNode, RadioNodeList};

fn input(t: InputType, checked: bool, value: Option<&str>) -> ListedNode {
    ListedNode::Input(InputElement { input_type: t, checked, value: value.map(|v| v.to_string()) })
}

#[test]
fn value_of_first_checked_radio() {
    let l = RadioNodeList::new(vec![
        ListedNode::Other,
        input(InputType::Checkbox, true, Some("box")),
        input(InputType::Radio, false, Some("a")),
        input(InputType::Radio, true, Some("b")),
        input(InputType::Radio, true, Some("c")),
    ]);
    assert_eq!(l.Value(), "b");
}

#[test]
fn value_on_without_attribute_and_empty_when_none() {
    let l = RadioNodeList::new(vec![input(InputType::Radio, true, None)]);
    assert_eq!(l.Value(), "on");
    let l = RadioNodeList::new_simple_list(vec![input(InputType::Radio, false, Some("x")), ListedNode::Other]);
    assert_eq!(l.Value(), "");
    assert_eq!(RadioNodeList::new(vec![]).Value(), "");
}

#[test]
fn empty_value_attribute_reads_as_empty() {
    let l = RadioNodeList::new(vec![input(InputType::Radio, true, Some(""))]);
    assert_eq!(l.Value(), "");
}

#[test]
fn set_value_selects_first_matching_radio() {
    let l = RadioNodeList::new(vec![
        input(InputType::Text, false, Some("b")),
        input(InputType::Radio, false, Some("a")),
        input(InputType::Radio, false, Some("b")),
        input(InputType::Radio, false, Some("b")),
    ]);
    assert_eq!(l.SetValue("b".to_string()), Some(2));
    assert_eq!(l.SetValue("z".to_string()), None);
}

#[test]
fn set_value_on_selects_radio_without_attribute_or_with_on() {
    let l = RadioNodeList::new(vec![
        input(InputType::Radio, false, Some("x")),
        input(InputType::Radio, false, Some("")),
        input(InputType::Radio, false, Some("on")),
    ]);
    assert_eq!(l.SetValue("on".to_string()), Some(2));
    let l = RadioNodeList::new(vec![input(InputType::Radio, false, Some("x")), input(InputType::Radio, false, None)]);
    assert_eq!(l.SetValue("on".to_string()), Some(1));
}

#[test]
fn set_empty_value_selects_only_empty_attribute() {
    let l = RadioNodeList::new(vec![input(InputType::Radio, false, None), input(InputType::Radio, false, Some(""))]);
    assert_eq!(l.SetValue(String::new()), Some(1));
    let l = RadioNodeList::new(vec![input(InputType::Radio, false, None)]);
    assert_eq!(l.SetValue(String::new()), None);
}

fn check_only(nodes: &mut Vec<ListedNode>, i: usize) {
    for (j, n) in nodes.iter_mut().enumerate() {
        if let ListedNode::Input(e) = n {
            if j == i {
                e.checked = true;
            } else if matches!(e.input_type, InputType::Radio) {
                e.checked = false;
            }
        }
    }
}

fn sample() -> Vec<ListedNode> {
    vec![
        input(InputType::Radio, true, Some("a")),
        input(InputType::Radio, false, Some("")),
        input(InputType::Radio, false, None),
    ]
}

#[test]
fn set_then_read_back() {
    for v in ["a", "", "on"] {
        let mut nodes = sample();
        let i = RadioNodeList::new(sample()).SetValue(v.to_string()).unwrap();
        check_only(&mut nodes, i);
        assert_eq!(RadioNodeList::new(nodes).Value(), v);
    }
}

#[test]
fn setting_twice_selects_the_same_radio() {
    let mut nodes = sample();
    let i = RadioNodeList::new(sample()).SetValue("on".to_string()).unwrap();
    check_only(&mut nodes, i);
    let again = RadioNodeList::new(nodes).SetValue("on".to_string()).unwrap();
    assert_eq!(i, again);
}

#[test]
fn length_and_indexed_getter() {
    let l = RadioNodeList::new(vec![ListedNode::Other, input(InputType::Radio, false, Some("a"))]);
    assert_eq!(l.Length(), 2);
    assert!(matches!(l.IndexedGetter(0), Some(ListedNode::Other)));
    assert!(matches!(l.IndexedGetter(1), Some(ListedNode::Input(_))));
    assert!(l.IndexedGetter(2).is_none());
}
