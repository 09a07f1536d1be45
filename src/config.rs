//! The relay chain's host configuration.
use vstd::prelude::*;

verus! {

/// The largest validation code a parachain may upload, in bytes.
pub const MAX_CODE_SIZE: u32 = 3 * 1024 * 1024;

/// The largest proof of validity a candidate may carry, in bytes.
pub const MAX_POV_SIZE: u32 = 5 * 1024 * 1024;

/// Parameters that govern parachain admission, message limits and
/// dispute windows on the relay chain.
#[derive(Clone, Copy, Debug, PartialEq, Eq)]
pub struct HostConfig {
    pub minimum_validation_upgrade_delay: u32,
    pub validation_upgrade_cooldown: u32,
    pub validation_upgrade_delay: u32,
    pub code_retention_period: u32,
    pub max_code_size: u32,
    pub max_pov_size: u32,
    pub max_head_data_size: u32,
    pub group_rotation_frequency: u32,
    pub chain_availability_period: u32,
    pub thread_availability_period: u32,
    pub max_upward_queue_count: u32,
    pub max_upward_queue_size: u32,
    pub max_downward_message_size: u32,
    pub ump_service_total_weight: u64,
    pub max_upward_message_size: u32,
    pub max_upward_message_num_per_candidate: u32,
    pub hrmp_sender_deposit: u128,
    pub hrmp_recipient_deposit: u128,
    pub hrmp_channel_max_capacity: u32,
    pub hrmp_channel_max_total_size: u32,
    pub hrmp_max_parachain_inbound_channels: u32,
    pub hrmp_max_parathread_inbound_channels: u32,
    pub hrmp_channel_max_message_size: u32,
    pub hrmp_max_parachain_outbound_channels: u32,
    pub hrmp_max_parathread_outbound_channels: u32,
    pub hrmp_max_message_num_per_candidate: u32,
    pub dispute_period: u32,
    pub no_show_slots: u32,
    pub n_delay_tranches: u32,
    pub needed_approvals: u32,
    pub relay_vrf_modulo_samples: u32,
    pub zeroth_delay_tranche_width: u32,
}

/// The host configuration that the test network's relay chain starts with.
pub open spec fn default_host_config() -> HostConfig {
    HostConfig {
        minimum_validation_upgrade_delay: 5,
        validation_upgrade_cooldown: 5,
        validation_upgrade_delay: 5,
        code_retention_period: 1200,
        max_code_size: MAX_CODE_SIZE,
        max_pov_size: MAX_POV_SIZE,
        max_head_data_size: 32768,
        group_rotation_frequency: 20,
        chain_availability_period: 4,
        thread_availability_period: 4,
        max_upward_queue_count: 8,
        max_upward_queue_size: 1048576,
        max_downward_message_size: 1024,
        ump_service_total_weight: 4_000_000_000,
        max_upward_message_size: 51200,
        max_upward_message_num_per_candidate: 5,
        hrmp_sender_deposit: 0,
        hrmp_recipient_deposit: 0,
        hrmp_channel_max_capacity: 8,
        hrmp_channel_max_total_size: 8192,
        hrmp_max_parachain_inbound_channels: 4,
        hrmp_max_parathread_inbound_channels: 4,
        hrmp_channel_max_message_size: 1048576,
        hrmp_max_parachain_outbound_channels: 4,
        hrmp_max_parathread_outbound_channels: 4,
        hrmp_max_message_num_per_candidate: 5,
        dispute_period: 6,
        no_show_slots: 2,
        n_delay_tranches: 25,
        needed_approvals: 2,
        relay_vrf_modulo_samples: 2,
        zeroth_delay_tranche_width: 0,
    }
}

/// Builds the relay chain's starting host configuration.
pub fn default_parachains_host_configuration() -> (r: HostConfig)
    ensures
        r == default_host_config(),
{
    HostConfig {
        minimum_validation_upgrade_delay: 5,
        validation_upgrade_cooldown: 5,
        validation_upgrade_delay: 5,
        code_retention_period: 1200,
        max_code_size: MAX_CODE_SIZE,
        max_pov_size: MAX_POV_SIZE,
        max_head_data_size: 32 * 1024,
        group_rotation_frequency: 20,
        chain_availability_period: 4,
        thread_availability_period: 4,
        max_upward_queue_count: 8,
        max_upward_queue_size: 1024 * 1024,
        max_downward_message_size: 1024,
        ump_service_total_weight: 4 * 1_000_000_000,
        max_upward_message_size: 50 * 1024,
        max_upward_message_num_per_candidate: 5,
        hrmp_sender_deposit: 0,
        hrmp_recipient_deposit: 0,
        hrmp_channel_max_capacity: 8,
        hrmp_channel_max_total_size: 8 * 1024,
        hrmp_max_parachain_inbound_channels: 4,
        hrmp_max_parathread_inbound_channels: 4,
        hrmp_channel_max_message_size: 1024 * 1024,
        hrmp_max_parachain_outbound_channels: 4,
        hrmp_max_parathread_outbound_channels: 4,
        hrmp_max_message_num_per_candidate: 5,
        dispute_period: 6,
        no_show_slots: 2,
        n_delay_tranches: 25,
        needed_approvals: 2,
        relay_vrf_modulo_samples: 2,
        zeroth_delay_tranche_width: 0,
    }
}

} // verus!
