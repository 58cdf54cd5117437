pub mod udp_sender;
