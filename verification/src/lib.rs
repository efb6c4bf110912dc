//! A verified control-plane facade for a local container-runtime
//! daemon: typed commands over containers, images, volumes and
//! networks, plus two stream relays (log tailing and image-pull
//! progress).
//!
//! The facade itself is pure: each command function takes the daemon
//! call's outcome as a plain value and returns either a mapped success
//! value or a classified error; the relays are decision functions over
//! arriving events. The surrounding process performs the daemon I/O
//! and feeds the results in.

mod dispatch;
mod error;
mod mapper;
mod payload;
mod ports;
mod records;
mod relay;
mod text;

pub use dispatch::connect_container_to_network;
pub use dispatch::create_container_outcome;
pub use dispatch::create_container_request;
pub use dispatch::create_network_outcome;
pub use dispatch::create_network_request;
pub use dispatch::create_volume;
pub use dispatch::delete_container;
pub use dispatch::disconnect_container_from_network;
pub use dispatch::kill_container;
pub use dispatch::list_containers;
pub use dispatch::list_images;
pub use dispatch::list_network_containers;
pub use dispatch::list_networks;
pub use dispatch::list_volumes;
pub use dispatch::pause_container;
pub use dispatch::remove_image;
pub use dispatch::remove_network;
pub use dispatch::remove_volume;
pub use dispatch::start_container;
pub use dispatch::start_created_container_outcome;
pub use dispatch::stop_container;
pub use dispatch::unpause_container;
pub use dispatch::CreateContainerRequest;
pub use error::delete_container_error;
pub use error::kill_container_error;
pub use error::lemma_remove_volume_error_distinguishes;
pub use error::lemma_stop_error_names_missing_container;
pub use error::plain_daemon_error;
pub use error::prefixed_daemon_error;
pub use error::prefixed_unexpected_error;
pub use error::remove_image_error;
pub use error::remove_network_error;
pub use error::remove_volume_error;
pub use error::spec_delete_container_error;
pub use error::spec_kill_container_error;
pub use error::spec_remove_image_error;
pub use error::spec_remove_network_error;
pub use error::spec_remove_volume_error;
pub use error::spec_start_container_error;
pub use error::spec_stop_container_error;
pub use error::start_container_error;
pub use error::stop_container_error;
pub use error::CommandError;
pub use mapper::map_container;
pub use mapper::map_image;
pub use mapper::map_network;
pub use mapper::map_network_member;
pub use mapper::map_volume;
pub use mapper::reshape_progress;
pub use mapper::spec_container_maps;
pub use mapper::spec_image_maps;
pub use mapper::spec_member_maps;
pub use mapper::spec_network_complete;
pub use mapper::spec_network_maps;
pub use mapper::spec_port_ips;
pub use mapper::spec_progress_maps;
pub use mapper::spec_progress_valid;
pub use mapper::spec_strip_name;
pub use mapper::spec_volume_maps;
pub use mapper::strip_name_prefix;
pub use payload::Container;
pub use payload::Image;
pub use payload::IpamConfig;
pub use payload::Network;
pub use payload::NetworkContainer;
pub use payload::PortBinding;
pub use payload::ProgressDetail;
pub use payload::ProgressInfo;
pub use payload::Volume;
pub use payload::VolumeScopeEnum;
pub use ports::build_port_config;
pub use ports::count_char;
pub use ports::split_port_mapping;
pub use ports::spec_port_key;
pub use ports::spec_port_split;
pub use ports::spec_ports_empty;
pub use ports::spec_ports_for_mapping;
pub use ports::spec_ports_single;
pub use ports::PortConfig;
pub use records::ContainerRecord;
pub use records::ImageRecord;
pub use records::NetworkInspectRecord;
pub use records::NetworkMemberRecord;
pub use records::NetworkRecord;
pub use records::PortRecord;
pub use records::ProgressRecord;
pub use records::VolumeRecord;
pub use relay::lemma_log_relay_stops_at_sink_rejection;
pub use relay::lemma_pull_relay_drops_malformed;
pub use relay::log_relay_step;
pub use relay::log_sink_error;
pub use relay::progress_sink_error;
pub use relay::pull_relay_step;
pub use relay::run_log_relay;
pub use relay::run_pull_relay;
pub use relay::spec_log_relay;
pub use relay::spec_pull_relay;
pub use relay::spec_reshaped;
pub use relay::spec_valid_events;
pub use relay::LogEvent;
pub use relay::LogStep;
pub use relay::PullEvent;
pub use relay::PullStep;
pub use relay::RelayVerdict;
pub use relay::SinkResult;
pub use text::seq_contains;
pub use text::str_contains;
