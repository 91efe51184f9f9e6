use kubeforward::container::{Container, ContainerWrapper};

fn setup() -> Vec<Container> {
    vec![
        Container::new("foo".to_owned(), Some(vec![3000])),
        Container::new("bar".to_owned(), Some(vec![443, 80])),
    ]
}

#[test]
fn expect_to_get_containers_name() {
    let containers = setup();
    let names = ContainerWrapper::new(containers).get_containers_name();

    assert_eq!(names.get(0).unwrap(), "foo");
    assert_eq!(names.get(1).unwrap(), "bar");
}

#[test]
fn expect_to_not_get_containers_name() {
    let names = ContainerWrapper::new(vec![]).get_containers_name();
    assert!(names.is_empty());
}

#[test]
fn expect_to_get_port_for_one_exposed_port() {
    let containers = setup();
    let ports = ContainerWrapper::new(containers)
        .set_selected_container("foo".to_owned())
        .get_port_for_container()
        .unwrap();

    assert_eq!(*ports.get(0).unwrap(), 3000);
}

#[test]
fn expect_to_get_port_for_multiple_exposed_ports() {
    let containers = setup();
    let ports = ContainerWrapper::new(containers)
        .set_selected_container("bar".to_owned())
        .get_port_for_container()
        .unwrap();

    assert_eq!(*ports.get(0).unwrap(), 443);
    assert_eq!(*ports.get(1).unwrap(), 80);
}

#[test]
fn expect_to_not_get_ports() {
    let containers = setup();
    let ports = ContainerWrapper::new(containers)
        .set_selected_container("tada".to_owned())
        .get_port_for_container();

    assert!(ports.is_none());
}

#[test]
fn container_without_port_list_exposes_nothing() {
    let c = Container::new("quiet".to_owned(), None);
    assert_eq!(c.name, "quiet");
    assert!(c.ports.is_empty());
}

#[test]
fn unknown_container_keeps_the_cursor() {
    let mut wrapper = ContainerWrapper::new(setup());
    wrapper.set_selected_container("bar".to_owned());
    wrapper.set_selected_container("tada".to_owned());
    assert_eq!(wrapper.get_port_for_container(), Some(vec![443, 80]));
}

#[test]
fn last_container_of_a_name_is_selected() {
    let containers = vec![
        Container::new("twin".to_owned(), Some(vec![1])),
        Container::new("other".to_owned(), Some(vec![2])),
        Container::new("twin".to_owned(), Some(vec![3])),
    ];
    let mut wrapper = ContainerWrapper::new(containers);
    let ports = wrapper.set_selected_container("twin".to_owned()).get_port_for_container();
    assert_eq!(ports, Some(vec![3]));
}

#[test]
fn selected_container_without_ports_gives_empty_list() {
    let containers = vec![Container::new("quiet".to_owned(), None)];
    let mut wrapper = ContainerWrapper::new(containers);
    let ports = wrapper.set_selected_container("quiet".to_owned()).get_port_for_container();
    assert_eq!(ports, Some(vec![]));
}

#[test]
fn default_wrapper_is_empty() {
    let wrapper = ContainerWrapper::default();
    assert!(wrapper.get_containers_name().is_empty());
    assert!(wrapper.get_port_for_container().is_none());
}

#[test]
fn container_clone_keeps_name_and_ports() {
    let c = Container::new("foo".to_owned(), Some(vec![3000, 3001]));
    let d = c.clone();
    assert_eq!(d.name, "foo");
    assert_eq!(d.ports, vec![3000, 3001]);
}
