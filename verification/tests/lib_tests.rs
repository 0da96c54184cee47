use service_registry::connection::Transport;

#[test]
fn it_works() {
    let _ = Transport::Tcp;
}
