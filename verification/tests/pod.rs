use kubeforward::container::Container;
use kubeforward::error::{KubeErr, TunnelError};
use kubeforward::pod::{Pod, PodsList};
use kubeforward::tunnel::{Stage, Step};

fn setup() -> PodsList {
    let containers = vec![Container::new("foo".to_owned(), Some(vec![3000]))];
    PodsList::new("default".to_owned(), vec![Pod::new("foo".to_owned(), Some(containers))])
}

fn two_pods() -> PodsList {
    PodsList::new(
        "default".to_owned(),
        vec![
            Pod::new(
                "alpha".to_owned(),
                Some(vec![
                    Container::new("web".to_owned(), Some(vec![80, 443])),
                    Container::new("quiet".to_owned(), None),
                ]),
            ),
            Pod::new(
                "beta".to_owned(),
                Some(vec![Container::new("db".to_owned(), Some(vec![5432]))]),
            ),
            Pod::new("bare".to_owned(), None),
        ],
    )
}

#[test]
fn expect_to_get_pod_names() {
    let pod_list = setup();
    let names = pod_list.get_pod_name_list();

    assert_eq!(names.get(0).unwrap(), "foo");
}

#[test]
fn expect_to_get_pod_port_container() {
    let mut pod_list = setup();
    let container_port = pod_list
        .set_selected_pod("foo".to_owned())
        .get_port_for_container("foo".to_owned());

    assert!(container_port.is_some());
    let container_port = container_port.unwrap();

    assert_eq!(*container_port.get(0).unwrap(), 3000);
}

#[test]
fn expect_to_not_get_pod_port() {
    let pod_list = setup();
    let container_port = pod_list.get_port_for_container("foo".to_owned());

    assert!(container_port.is_none());
}

#[test]
fn names_come_in_fetch_order_one_per_pod() {
    let pod_list = two_pods();
    assert_eq!(pod_list.get_pod_name_list(), vec!["alpha", "beta", "bare"]);
    let empty = PodsList::new("default".to_owned(), vec![]);
    assert!(empty.get_pod_name_list().is_empty());
}

#[test]
fn select_says_whether_the_pod_exists() {
    let mut pod_list = two_pods();
    assert!(pod_list.select(&"beta".to_owned()));
    assert_eq!(pod_list.selected_pod_name(), Some("beta".to_owned()));
    assert!(!pod_list.select(&"missing".to_owned()));
    assert_eq!(pod_list.selected_pod_name(), Some("beta".to_owned()));
}

#[test]
fn unknown_pod_leaves_the_selection() {
    let mut pod_list = two_pods();
    assert!(pod_list.list_containers().is_empty());
    pod_list.set_selected_pod("missing".to_owned());
    assert!(pod_list.list_containers().is_empty());
    assert_eq!(pod_list.selected_pod_name(), None);
    pod_list.set_selected_pod("alpha".to_owned());
    pod_list.set_selected_pod("missing".to_owned());
    assert_eq!(pod_list.list_containers(), vec!["web", "quiet"]);
    assert_eq!(pod_list.get_port_for_container("web".to_owned()), Some(vec![80, 443]));
}

#[test]
fn later_selection_replaces_earlier() {
    let mut pod_list = two_pods();
    pod_list.set_selected_pod("alpha".to_owned());
    pod_list.set_selected_pod("beta".to_owned());
    assert_eq!(pod_list.list_containers(), vec!["db"]);
    assert_eq!(pod_list.get_port_for_container("db".to_owned()), Some(vec![5432]));
    assert_eq!(pod_list.get_port_for_container("web".to_owned()), None);
}

#[test]
fn no_ports_differs_from_no_container() {
    let mut pod_list = two_pods();
    pod_list.set_selected_pod("alpha".to_owned());
    assert_eq!(pod_list.get_port_for_container("quiet".to_owned()), Some(vec![]));
    assert_eq!(pod_list.get_port_for_container("nobody".to_owned()), None);
}

#[test]
fn pod_without_containers_has_no_ports() {
    let mut pod_list = two_pods();
    pod_list.set_selected_pod("bare".to_owned());
    assert!(pod_list.list_containers().is_empty());
    assert_eq!(pod_list.get_port_for_container("web".to_owned()), None);
}

#[test]
fn scenario_foo_app_3000() {
    let containers = vec![Container::new("app".to_owned(), Some(vec![3000]))];
    let mut pod_list =
        PodsList::new("default".to_owned(), vec![Pod::new("foo".to_owned(), Some(containers))]);
    pod_list.set_selected_pod("foo".to_owned());
    assert_eq!(pod_list.get_port_for_container("app".to_owned()), Some(vec![3000]));
    pod_list.set_selected_pod("missing".to_owned());
    assert_eq!(pod_list.selected_pod_name(), Some("foo".to_owned()));
    assert_eq!(pod_list.get_port_for_container("app".to_owned()), Some(vec![3000]));
}

#[test]
fn first_pod_of_a_name_is_selected() {
    let mut pod_list = PodsList::new(
        "default".to_owned(),
        vec![
            Pod::new("twin".to_owned(), Some(vec![Container::new("a".to_owned(), Some(vec![1]))])),
            Pod::new("twin".to_owned(), Some(vec![Container::new("b".to_owned(), Some(vec![2]))])),
        ],
    );
    pod_list.set_selected_pod("twin".to_owned());
    assert_eq!(pod_list.list_containers(), vec!["a"]);
}

#[test]
fn namespace_is_kept() {
    assert_eq!(setup().namespace(), "default");
}

#[test]
fn expose_without_selection_is_refused() {
    let pod_list = setup();
    let tunnel = pod_list.expose_pod(3000, 8080);
    assert!(matches!(tunnel, Err(KubeErr::Tunnel(TunnelError::NoSelection))));
}

#[test]
fn expose_asks_for_the_stream_first() {
    let mut pod_list = setup();
    pod_list.set_selected_pod("foo".to_owned());
    let tunnel = pod_list.expose_pod(3000, 8080).unwrap();
    assert_eq!(tunnel.current_stage(), Stage::Opening);
    assert!(!matches!(tunnel.step(), Step::GiveUp(_)));
    match tunnel.step() {
        Step::OpenStream { pod, namespace, port } => {
            assert_eq!(pod, "foo");
            assert_eq!(namespace, "default");
            assert_eq!(port, 3000);
        },
        other => panic!("unexpected step {:?}", other),
    }
}
