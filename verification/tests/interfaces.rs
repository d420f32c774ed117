use subversive::network::interfaces::get_network_interfaces;

const IP_ADDR_SHOW: &str = "1: lo: <LOOPBACK,UP,LOWER_UP> mtu 65536 qdisc noqueue state UNKNOWN group default qlen 1000
    link/loopback 00:00:00:00:00:00 brd 00:00:00:00:00:00
    inet 127.0.0.1/8 scope host lo
       valid_lft forever preferred_lft forever
2: eth0: <BROADCAST,MULTICAST,UP,LOWER_UP> mtu 1500 qdisc fq_codel state UP group default qlen 1000
    link/ether 00:15:5d:01:ca:05 brd ff:ff:ff:ff:ff:ff
    inet 192.168.1.100/24 brd 192.168.1.255 scope global eth0
       valid_lft forever preferred_lft forever
3: wlan0: <BROADCAST,MULTICAST,UP,LOWER_UP> mtu 1500 qdisc noqueue state UP group default qlen 1000
    link/ether 00:15:5d:01:ca:06 brd ff:ff:ff:ff:ff:ff
    inet 192.168.2.50/24 brd 192.168.2.255 scope global dynamic wlan0
       valid_lft 86389sec preferred_lft 86389sec
";

#[test]
fn test_get_network_interfaces_success() {
    let interfaces = get_network_interfaces(IP_ADDR_SHOW);

    assert_eq!(interfaces.len(), 3);
    assert!(interfaces.contains(&[127, 0, 0, 1]));
    assert!(interfaces.contains(&[192, 168, 1, 100]));
    assert!(interfaces.contains(&[192, 168, 2, 50]));
}

#[test]
fn test_get_network_interfaces_no_interfaces() {
    let interfaces = get_network_interfaces("\n");
    assert!(interfaces.is_empty());
}

#[test]
fn test_get_network_interfaces_invalid_output() {
    let interfaces = get_network_interfaces("invalid data format\n");
    assert!(interfaces.is_empty());
}

#[test]
fn interfaces_keep_order_and_skip_bad_addresses() {
    let output = "inet 10.0.0.1/8\ninet6 ::1/128 scope host\n  inet 256.1.1.1/24\n  inet 01.2.3.4/8\ninet 10.0.0.2\r\n  inet  \n    inet 1.2.3/8\n";
    assert_eq!(get_network_interfaces(output), vec![[10, 0, 0, 1], [10, 0, 0, 2]]);
}

#[test]
fn interfaces_need_the_inet_word_with_a_space() {
    assert!(get_network_interfaces("inet\t1.2.3.4/8\n").is_empty());
    assert_eq!(get_network_interfaces("xinet 1.2.3.4/8"), vec![[1, 2, 3, 4]]);
}
