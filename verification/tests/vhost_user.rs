use devices::queue::Queue;
use devices::vhost_user::backend::{CallEvent, VhostUserBackend, VirtioDevice};
use devices::vhost_user::block::BlockBackend;
use devices::vhost_user::handler::VhostUserDeviceReqHandler;
use devices::vhost_user::memory::{
    mappings_of, pair_regions, vmm_va_to_gpa, MappingInfo, RegionFile,
};
use devices::vhost_user::message::{
    supported_protocol_features, Error, VhostUserMemoryRegion, VhostUserVringState,
};
use devices::vhost_user::net::NetBackend;
use devices::vhost_user::slave::BlockSlaveReqHandler;

/// What a device was activated with: memory, interrupts, queues and kick events.
type Activation = (char, Vec<u32>, Vec<(usize, Queue)>, Vec<u32>);

/// A device that remembers what was done to it.
struct Fake {
    offered: u64,
    acked: u64,
    groups: Vec<Vec<usize>>,
    activations: Vec<Activation>,
    resets: usize,
}

impl VirtioDevice for Fake {
    type Event = u32;
    type GuestMemory = char;

    fn features(&self) -> u64 {
        self.offered
    }

    fn ack_features(&mut self, value: u64) {
        self.acked = value;
    }

    fn acked_features(&self) -> u64 {
        self.acked
    }

    fn queues_per_worker(&self) -> Vec<Vec<usize>> {
        self.groups.clone()
    }

    fn read_config(&self, offset: u64, data: &mut [u8]) {
        for (i, byte) in data.iter_mut().enumerate() {
            *byte += (offset as usize + i) as u8;
        }
    }

    fn activate_vhost(
        &mut self,
        mem: &char,
        interrupts: Vec<CallEvent<u32>>,
        queues: Vec<(usize, Queue)>,
        queue_evts: Vec<u32>,
    ) {
        let interrupts = interrupts.into_iter().map(|call| call.0).collect();
        self.activations.push((*mem, interrupts, queues, queue_evts));
    }

    fn reset(&mut self) -> bool {
        self.resets += 1;
        true
    }
}

type Handler = VhostUserDeviceReqHandler<BlockBackend<Fake>>;

const PROTOCOL_FEATURES: u64 = 0x4000_0000;

fn handler(groups: Vec<Vec<usize>>) -> Handler {
    let device =
        Fake { offered: 0x7244, acked: 0, groups, activations: Vec::new(), resets: 0 };
    VhostUserDeviceReqHandler::new(BlockBackend::new(device))
}

fn region(guest_phys_addr: u64, memory_size: u64, user_addr: u64) -> VhostUserMemoryRegion {
    VhostUserMemoryRegion { guest_phys_addr, memory_size, user_addr, mmap_offset: 0x10 }
}

#[test]
fn device_has_one_owner() {
    let mut h = handler(vec![]);
    assert_eq!(h.set_owner(), Ok(()));
    assert!(h.owned);
    assert_eq!(h.set_owner(), Err(Error::InvalidOperation));
    h.features_acked = true;
    assert_eq!(h.reset_owner(), Ok(()));
    assert!(!h.owned);
    assert!(!h.features_acked);
    assert_eq!(h.backend().device.resets, 1);
    assert_eq!(h.set_owner(), Ok(()));
}

#[test]
fn features_are_negotiated() {
    let mut h = handler(vec![]);
    assert_eq!(h.get_features(), Ok(0x1_4000_7244));
    assert_eq!(h.set_features(0), Err(Error::InvalidOperation));
    h.set_owner().unwrap();
    assert_eq!(h.set_features(0x1_4000_7245), Err(Error::InvalidParam));
    assert!(!h.features_acked);
    assert_eq!(h.backend().device.acked, 0);
    assert_eq!(h.set_features(0x1_4000_7244), Ok(()));
    assert!(h.features_acked);
    assert_eq!(h.backend().device.acked, 0x1_4000_7244);
    assert!(!h.vrings()[0].enabled && !h.vrings()[1].enabled);
    // Without protocol features the rings are enabled at once.
    assert_eq!(h.set_features(0x7244), Ok(()));
    assert!(h.vrings()[0].enabled && h.vrings()[1].enabled);
    assert_eq!(h.set_vring_enable(0, false), Err(Error::InvalidOperation));
}

#[test]
fn protocol_features_are_negotiated() {
    let mut h = handler(vec![]);
    assert_eq!(supported_protocol_features(), 0x1_6fdf);
    assert_eq!(h.get_protocol_features(), Ok(0x1_6fdf));
    assert_eq!(h.set_protocol_features(0x21), Ok(()));
    assert_eq!(h.backend().acked_protocol_features(), 0x21);
    h.reset_owner().unwrap();
    assert_eq!(h.backend().acked_protocol_features(), 0);
}

#[test]
fn memory_table_needs_a_file_each() {
    let regions = [region(0x1000, 0x100, 0x7000), region(0, 0x200, 0x9000)];
    assert_eq!(Handler::mem_table_files(&regions, &[3]), Err(Error::InvalidParam));
    assert_eq!(
        Handler::mem_table_files(&regions, &[3, 4]),
        Ok(vec![
            RegionFile { size: 0x100, guest_addr: 0x1000, offset: 0x10, fd: 3 },
            RegionFile { size: 0x200, guest_addr: 0, offset: 0x10, fd: 4 },
        ])
    );
    assert_eq!(pair_regions(&regions, &[3]).len(), 1);
    let mut h = handler(vec![]);
    assert_eq!(h.set_mem_table(&regions, 'm'), Ok(()));
    let mem = h.mem().unwrap();
    assert_eq!(mem.guest_mem, 'm');
    assert_eq!(
        mem.vmm_maps,
        vec![
            MappingInfo { vmm_addr: 0x7000, guest_phys: 0x1000, size: 0x100 },
            MappingInfo { vmm_addr: 0x9000, guest_phys: 0, size: 0x200 },
        ]
    );
}

#[test]
fn first_mapping_translates() {
    let maps = mappings_of(
        &[region(0x1000, 0x100, 0x7000), region(0x5000, 0x200, 0x7080), region(0, 1, 0)],
        3,
    );
    assert_eq!(vmm_va_to_gpa(&maps, 0x7000), Ok(0x1000));
    assert_eq!(vmm_va_to_gpa(&maps, 0x70ff), Ok(0x10ff));
    assert_eq!(vmm_va_to_gpa(&maps, 0x7100), Ok(0x5080));
    assert_eq!(vmm_va_to_gpa(&maps, 0x7280), Err(Error::InvalidMessage));
    assert_eq!(vmm_va_to_gpa(&maps, 0x6fff), Err(Error::InvalidMessage));
    assert_eq!(vmm_va_to_gpa(&maps, 0), Ok(0));
    assert_eq!(vmm_va_to_gpa(&vec![], 0), Err(Error::InvalidMessage));
}

#[test]
fn vring_parameters_are_checked() {
    let mut h = handler(vec![]);
    assert_eq!(h.get_queue_num(), Ok(2));
    assert_eq!(h.set_vring_num(2, 1), Err(Error::InvalidParam));
    assert_eq!(h.set_vring_num(0, 0), Err(Error::InvalidParam));
    assert_eq!(h.set_vring_num(0, 257), Err(Error::InvalidParam));
    assert_eq!(h.vring_num, [0, 0]);
    assert_eq!(h.set_vring_num(1, 256), Ok(()));
    assert_eq!(h.vring_num, [0, 256]);

    assert_eq!(h.set_vring_err(2, Some(1)), Err(Error::InvalidParam));
    assert_eq!(h.set_vring_err(1, Some(8)), Ok(()));
    assert_eq!(h.err_fd, [None, Some(8)]);
    assert_eq!(h.set_vring_kick(2, None), Err(Error::InvalidParam));
    assert_eq!(h.set_vring_call(255, None), Err(Error::InvalidParam));
}

#[test]
fn vring_addresses_are_translated() {
    let mut h = handler(vec![]);
    assert_eq!(h.set_vring_addr(0, 0, 1, 2, 3, 0), Err(Error::InvalidParam));
    h.set_mem_table(&[region(0x1000, 0x100, 0x7000)], 'm').unwrap();
    assert_eq!(h.set_vring_addr(2, 0, 1, 2, 3, 0), Err(Error::InvalidParam));
    // The order is: descriptor table, used ring, available ring.
    assert_eq!(h.set_vring_addr(1, 0, 0x7000, 0x7020, 0x7010, 0), Ok(()));
    assert_eq!(
        h.vrings()[1].queue,
        Queue {
            max_size: 256,
            ready: false,
            desc_table: 0x1000,
            avail_ring: 0x1010,
            used_ring: 0x1020,
        }
    );
    assert_eq!(h.vrings()[0].queue, Queue::new(256));
}

#[test]
fn vring_base_reads_back() {
    let mut h = handler(vec![]);
    assert_eq!(h.set_vring_base(2, 1), Err(Error::InvalidParam));
    assert_eq!(h.set_vring_base(1, 256), Err(Error::InvalidParam));
    assert_eq!(h.set_vring_base(1, 255), Ok(()));
    assert_eq!(h.get_vring_base(2), Err(Error::InvalidParam));
    assert_eq!(h.get_vring_base(1), Ok(VhostUserVringState { index: 1, num: 255 }));
    assert_eq!(h.get_vring_base(0), Ok(VhostUserVringState { index: 0, num: 0 }));
}

#[test]
fn device_starts_when_its_group_is_ready() {
    let mut h = handler(vec![vec![1, 0]]);
    h.set_owner().unwrap();
    h.set_features(PROTOCOL_FEATURES).unwrap();
    h.set_mem_table(&[region(0x1000, 0x100, 0x7000)], 'm').unwrap();
    h.set_vring_addr(1, 0, 0x7000, 0x7020, 0x7010, 0).unwrap();
    h.set_vring_kick(0, Some(10)).unwrap();
    h.set_vring_call(0, Some(20)).unwrap();
    h.set_vring_enable(0, true).unwrap();
    h.set_vring_call(1, Some(21)).unwrap();
    h.set_vring_enable(1, true).unwrap();
    assert_eq!(h.set_vring_enable(2, true), Err(Error::InvalidParam));
    assert!(h.backend().device.activations.is_empty());

    h.set_vring_kick(1, Some(11)).unwrap();
    assert_eq!(h.backend().device.activations.len(), 1);
    let first = Queue {
        max_size: 256,
        ready: true,
        desc_table: 0x1000,
        avail_ring: 0x1010,
        used_ring: 0x1020,
    };
    let mut second = Queue::new(256);
    second.ready = true;
    assert_eq!(
        h.backend().device.activations[0],
        ('m', vec![21, 20], vec![(1, first), (0, second)], vec![11, 10])
    );
    assert!(h.vrings()[0].activated && h.vrings()[1].activated);
    assert_eq!(h.vrings()[0].call_fd, None);
    assert_eq!(h.vrings()[1].kick_fd, None);

    // New events do not start it again, before the rings are stopped.
    h.set_vring_kick(1, Some(12)).unwrap();
    h.set_vring_call(1, Some(22)).unwrap();
    assert_eq!(h.backend().device.activations.len(), 1);
    h.get_vring_base(0).unwrap();
    assert!(!h.vrings()[1].activated && !h.vrings()[1].enabled);
    assert_eq!(h.vrings()[1].kick_fd, None);
    assert_eq!(h.vrings()[1].queue, Queue::new(256));
}

#[test]
fn groups_start_on_their_own() {
    let mut h = handler(vec![vec![0], vec![1]]);
    h.set_owner().unwrap();
    h.set_features(0).unwrap();
    h.set_mem_table(&[], 'm').unwrap();
    h.set_vring_call(1, Some(21)).unwrap();
    h.set_vring_kick(1, Some(11)).unwrap();
    assert_eq!(h.backend().device.activations.len(), 1);
    assert_eq!(h.backend().device.activations[0].1, vec![21]);
    assert!(!h.vrings()[0].activated && h.vrings()[1].activated);
}

#[test]
fn queue_without_worker_is_not_started() {
    let mut h = handler(vec![vec![1]]);
    h.set_owner().unwrap();
    h.set_features(0).unwrap();
    h.set_vring_call(0, Some(20)).unwrap();
    h.set_vring_kick(0, Some(10)).unwrap();
    assert!(h.backend().device.activations.is_empty());
    assert!(h.vrings()[0].queue.ready);
}

#[test]
fn disabled_ring_is_not_started() {
    let mut h = handler(vec![vec![0]]);
    h.set_owner().unwrap();
    h.set_features(PROTOCOL_FEATURES).unwrap();
    h.set_vring_call(0, Some(20)).unwrap();
    h.set_vring_kick(0, Some(10)).unwrap();
    h.set_vring_enable(0, false).unwrap();
    assert!(h.backend().device.activations.is_empty());
    h.set_mem_table(&[], 'm').unwrap();
    h.set_vring_enable(0, true).unwrap();
    assert_eq!(h.backend().device.activations.len(), 1);
}

#[test]
fn config_requests() {
    let mut h = handler(vec![]);
    assert_eq!(h.get_config(3, 4, 0), Ok(vec![3, 4, 5, 6]));
    assert_eq!(h.get_config(0xfff, 1, 0), Ok(vec![0xff]));
    assert_eq!(h.get_config(0xfff, 2, 0), Err(Error::InvalidParam));
    assert_eq!(h.get_config(0x1000, 0, 0), Err(Error::InvalidParam));
    assert_eq!(h.set_config(0x100, &[0; 0xf00], 0), Ok(()));
    assert_eq!(h.set_config(0x100, &[0; 0xf01], 0), Err(Error::InvalidParam));
    assert_eq!(h.set_config(0xff, &[0], 0), Err(Error::InvalidParam));
    assert_eq!(h.set_config(0x1000, &[], 0), Err(Error::InvalidParam));
    assert_eq!(h.set_config(0xfff, &[0], 0), Ok(()));
    assert_eq!(h.set_config(0xfff, &[0, 0], 0), Err(Error::InvalidParam));
}

#[test]
fn memory_slots_are_not_used() {
    let mut h = handler(vec![]);
    let r = region(0x1000, 0x100, 0x7000);
    assert_eq!(h.get_max_mem_slots(), Ok(0));
    assert_eq!(h.add_mem_region(&r, 3), Ok(()));
    assert_eq!(h.remove_mem_region(&r), Ok(()));
    assert!(h.mem().is_none());
}

#[test]
fn call_events_interrupt() {
    let call = CallEvent(5u32);
    assert_eq!(call.signal(1, 0xffff_ffff), (&5, 0xffff_ffff));
    assert_eq!(call.signal_used_queue(1), (&5, 1));
    assert_eq!(call.signal_config_changed(), (&5, 2));
    assert_eq!(call.do_interrupt_resample(), (&5, 1));
    assert_eq!(call.get_resample_evt(), None);
}

#[test]
fn backends_pass_on_to_the_device() {
    let device = Fake {
        offered: 3,
        acked: 0,
        groups: vec![vec![0, 1]],
        activations: Vec::new(),
        resets: 0,
    };
    let mut net = NetBackend::new(device);
    assert_eq!(net.expected_queue_num(), 2);
    assert_eq!(net.features(), 3);
    net.ack_features(2);
    assert_eq!(net.acked_features(), 2);
    assert_eq!(net.queues_per_worker(), vec![vec![0, 1]]);
    assert_eq!(net.protocol_features(), 0x1_6fdf);
    net.ack_protocol_features(9);
    assert_eq!(net.acked_protocol_features(), 9);
    let mut data = [1u8; 2];
    net.read_config(4, &mut data);
    assert_eq!(data, [5, 6]);
    net.activate_vhost(&'n', vec![CallEvent(1)], vec![(1, Queue::new(4))], vec![2]);
    assert_eq!(net.device.activations[0], ('n', vec![1], vec![(1, Queue::new(4))], vec![2]));
    net.reset();
    assert_eq!(net.device.resets, 1);
    assert_eq!(net.acked_protocol_features(), 0);
}

type Slave = BlockSlaveReqHandler<&'static str>;

#[test]
fn slave_has_one_owner() {
    let mut h = Slave::new();
    assert_eq!(h.set_owner(), Ok(()));
    assert_eq!(h.set_owner(), Err(Error::InvalidOperation));
    h.set_features(3).unwrap();
    h.set_protocol_features(1).unwrap();
    assert_eq!(h.reset_owner(), Ok(()));
    assert_eq!((h.owned, h.features_acked), (false, false));
    assert_eq!((h.acked_features, h.acked_protocol_features), (0, 0));
    assert_eq!(h.set_owner(), Ok(()));
}

#[test]
fn slave_negotiates_features() {
    let mut h = Slave::new();
    assert_eq!(h.get_features(), Ok(0x4000_0003));
    assert_eq!(h.get_protocol_features(), Ok(0x1_6fdf));
    assert_eq!(h.set_features(1), Err(Error::InvalidOperation));
    h.set_owner().unwrap();
    assert_eq!(h.set_features(4), Err(Error::InvalidParam));
    assert_eq!(h.set_features(3), Ok(()));
    assert_eq!(h.vring_enabled, [true, true]);
    assert_eq!(h.set_vring_enable(0, false), Err(Error::InvalidOperation));
    assert_eq!(h.set_features(0x4000_0000), Ok(()));
    assert_eq!(h.acked_features, 0x4000_0000);
    assert_eq!(h.vring_enabled, [false, false]);
    assert_eq!(h.set_vring_enable(1, true), Ok(()));
    assert_eq!(h.vring_enabled, [false, true]);
    assert_eq!(h.set_vring_enable(2, true), Err(Error::InvalidParam));
    assert_eq!(h.set_protocol_features(0x21), Ok(()));
    assert_eq!(h.acked_protocol_features, 0x21);
}

#[test]
fn slave_translates_addresses() {
    let mut h = Slave::new();
    let regions = [region(0x1000, 0x100, 0x7000), region(0, 0x100, 0x8000)];
    assert_eq!(h.set_vring_addr(0, 0, 1, 2, 3, 0), Err(Error::MissingMemoryMapping));
    assert_eq!(h.set_vring_addr(2, 0, 1, 2, 3, 0), Err(Error::InvalidParam));
    // Only the first region comes with a file descriptor.
    let files = Slave::mem_table_files(&regions, &[3]);
    assert_eq!(files, vec![RegionFile { size: 0x100, guest_addr: 0x1000, offset: 0x10, fd: 3 }]);
    assert_eq!(h.set_mem_table(&regions, vec!["mapping"]), Ok(()));
    assert_eq!(h.mem_tables(), Some(&vec!["mapping"]));
    assert_eq!(
        h.memory(),
        Some(&vec![MappingInfo { vmm_addr: 0x7000, guest_phys: 0x1000, size: 0x100 }])
    );
    assert_eq!(h.set_vring_addr(0, 0, 0x7000, 0x7020, 0x7010, 0), Ok(()));
    assert_eq!(h.queue_info()[0].descriptor_table, 0x1000);
    assert_eq!(h.queue_info()[0].avail_ring, 0x1010);
    assert_eq!(h.queue_info()[0].used_ring, 0x1020);
    // The addresses before one that is not known are set.
    assert_eq!(
        h.set_vring_addr(1, 0, 0x7001, 0x8000, 0x7002, 0),
        Err(Error::MissingMemoryMapping)
    );
    assert_eq!(h.queue_info()[1].descriptor_table, 0x1001);
    assert_eq!(h.queue_info()[1].avail_ring, 0x1002);
    assert_eq!(h.queue_info()[1].used_ring, 0);
    assert_eq!(
        h.set_vring_addr(1, 0, 0x7003, 0x7004, 0x9000, 0),
        Err(Error::MissingMemoryMapping)
    );
    assert_eq!(h.queue_info()[1].descriptor_table, 0x1003);
    assert_eq!(h.queue_info()[1].avail_ring, 0x1002);
}

#[test]
fn slave_vrings() {
    let mut h = Slave::new();
    assert_eq!(h.get_queue_num(), Ok(2));
    assert_eq!(h.set_vring_num(0, 257), Err(Error::InvalidParam));
    assert_eq!(h.set_vring_num(0, 256), Ok(()));
    assert_eq!(h.vring_num, [256, 0]);
    assert_eq!(h.set_vring_base(0, 256), Err(Error::InvalidParam));
    assert_eq!(h.set_vring_base(0, 9), Ok(()));

    assert_eq!(h.set_vring_kick(2, None), Err(Error::InvalidParam));
    assert_eq!(h.set_vring_kick(0, Some(5)), Ok(None));
    assert_eq!(h.vring_started, [true, false]);
    assert_eq!(h.set_vring_kick(0, Some(6)), Ok(Some(5)));
    assert_eq!(h.set_vring_kick(0, None), Ok(Some(6)));
    assert_eq!(h.set_vring_call(1, Some(7)), Ok(None));
    assert_eq!(h.set_vring_call(1, Some(8)), Ok(Some(7)));
    assert_eq!(h.set_vring_call(9, Some(8)), Err(Error::InvalidParam));
    assert_eq!(h.set_vring_err(1, Some(9)), Ok(None));
    assert_eq!(h.set_vring_err(1, None), Ok(Some(9)));
    assert_eq!(h.set_vring_err(2, None), Err(Error::InvalidParam));
    assert_eq!(h.call_fd, [None, Some(8)]);

    assert_eq!(h.get_vring_base(0), Ok(VhostUserVringState { index: 0, num: 9 }));
    assert_eq!(h.vring_started, [false, false]);
    assert_eq!(h.get_vring_base(2), Err(Error::InvalidParam));
}

#[test]
fn slave_config() {
    let mut h = Slave::new();
    let config = h.get_config(0, 60, 0, 1024).unwrap();
    // A disk of 1 GiB is 0x20_0000 sectors.
    assert_eq!(config[0..8], [0, 0, 0x20, 0, 0, 0, 0, 0]);
    assert_eq!(config[12..16], [0, 4, 0, 0]);
    assert_eq!(config[20..24], [0, 4, 0, 0]);
    // The offset does not matter.
    assert_eq!(h.get_config(8, 10, 0, 1024).unwrap(), config[..10].to_vec());
    assert_eq!(h.get_config(0x1000, 1, 0, 1024), Err(Error::InvalidParam));
    assert_eq!(h.get_config(0xff0, 0x11, 0, 1024), Err(Error::InvalidParam));
    assert_eq!(h.set_config(0x100, &[1, 2], 0), Ok(()));
    assert_eq!(h.set_config(0, &[1, 2], 0), Err(Error::InvalidParam));
}

#[test]
fn device_that_cannot_start_is_left_alone() {
    // The guest's memory is not known.
    let mut h = handler(vec![vec![0, 1]]);
    h.set_owner().unwrap();
    h.set_features(0).unwrap();
    assert_eq!(h.try_set_vring_call(0, Some(20)), Some(Ok(())));
    assert_eq!(h.try_set_vring_call(1, Some(21)), Some(Ok(())));
    assert_eq!(h.try_set_vring_kick(0, Some(10)), Some(Ok(())));
    assert_eq!(h.try_set_vring_kick(1, Some(11)), None);
    assert_eq!(h.vrings()[1].kick_fd, None);
    assert!(!h.vrings()[1].queue.ready);
    assert_eq!(h.try_set_vring_kick(2, Some(11)), Some(Err(Error::InvalidParam)));
    h.set_mem_table(&[], 'm').unwrap();
    assert_eq!(h.try_set_vring_kick(1, Some(11)), Some(Ok(())));
    assert_eq!(h.backend().device.activations.len(), 1);

    // A queue that does not exist is found out only where the ones before it are ready.
    let mut h = handler(vec![vec![0, 7]]);
    h.set_owner().unwrap();
    h.set_features(PROTOCOL_FEATURES).unwrap();
    assert_eq!(h.try_set_vring_kick(0, Some(10)), Some(Ok(())));
    assert_eq!(h.try_set_vring_enable(0, true), Some(Ok(())));
    assert_eq!(h.try_set_vring_call(0, Some(20)), None);
    assert_eq!(h.try_set_vring_enable(2, true), Some(Err(Error::InvalidParam)));

    // A queue that is named twice has no second pair of events.
    let mut h = handler(vec![vec![1], vec![0, 0]]);
    h.set_owner().unwrap();
    h.set_features(PROTOCOL_FEATURES).unwrap();
    h.set_mem_table(&[], 'm').unwrap();
    assert_eq!(h.try_set_vring_kick(0, Some(10)), Some(Ok(())));
    assert_eq!(h.try_set_vring_call(0, Some(20)), Some(Ok(())));
    assert_eq!(h.try_set_vring_enable(0, true), None);
    assert!(!h.vrings()[0].enabled);
    h.set_features(0).unwrap();
    assert_eq!(h.try_set_vring_enable(0, true), Some(Err(Error::InvalidOperation)));
}

#[test]
fn addresses_outside_of_memory_are_found_out() {
    let mut h = handler(vec![]);
    assert_eq!(h.try_set_vring_addr(0, 0, 1, 2, 3, 0), Some(Err(Error::InvalidParam)));
    h.set_mem_table(&[region(0x1000, 0x100, 0x7000), region(0, u64::MAX, 0x8000)], 'm').unwrap();
    assert_eq!(h.try_set_vring_addr(0, 0, 0x7000, 0x7001, 0x7002, 0), Some(Ok(())));
    assert_eq!(h.vrings()[0].queue.used_ring, 0x1001);
    assert_eq!(h.try_set_vring_addr(0, 0, 0x7000, 0x1, 0x7002, 0), None);
    assert_eq!(h.try_set_vring_addr(0, 0, 0x7000, 0x7100, 0x7002, 0), None);
    // The end of the second region can't be counted.
    assert_eq!(h.try_set_vring_addr(0, 0, 0x8000, 0x7001, 0x7002, 0), None);
    assert_eq!(h.vrings()[0].queue.desc_table, 0x1000);

    let mut h = Slave::new();
    let regions = [region(0x1000, 0x100, 0x7000), region(0, u64::MAX, 0x8000)];
    h.set_mem_table(&regions, vec!["a", "b"]).unwrap();
    assert_eq!(h.try_set_vring_addr(0, 0, 0x7000, 0x7001, 0x7002, 0), Some(Ok(())));
    assert_eq!(h.try_set_vring_addr(0, 0, 0x8000, 0x7001, 0x7002, 0), None);
    assert_eq!(h.try_set_vring_addr(2, 0, 0x8000, 1, 2, 0), Some(Err(Error::InvalidParam)));
    // The search ends with the first address that is not known.
    assert_eq!(
        h.try_set_vring_addr(0, 0, 0x1, 0x8000, 0x8000, 0),
        Some(Err(Error::MissingMemoryMapping))
    );
}
