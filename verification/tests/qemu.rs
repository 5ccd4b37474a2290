use qemu_test_runner::qemu::{ChildExit, Image, ImageBuf, ImageBuilder, QemuConfig, QemuSpawner};
use qemu_test_runner::IoKind;

fn spawner(limit: usize, enable_kvm: bool, irqchip_off: bool) -> QemuSpawner {
    QemuSpawner::new(
        limit,
        QemuConfig {
            cmd: "qemu-system-x86_64".into(),
            memory: 1024,
            enable_kvm,
            irqchip_off,
        },
    )
}

#[test]
fn build_and_run() {
    let mut spawner = spawner(1, true, true);
    let qemu = spawner
        .spawn("image.qcow2".into())
        .expect("failed to spawn the QEMU process");
    assert_eq!(qemu.image_path(), "image.qcow2");
    let (permit, result) = qemu.wait(ChildExit::Signal);
    assert!(result.is_err());
    spawner.release(permit);
    assert_eq!(spawner.running(), 0);
}

#[test]
fn spawner_concurrency_limit() {
    let mut spawner = spawner(1, true, true);
    let _qemu = spawner
        .spawn("image_1.qcow2".into())
        .expect("failed to spawn the QEMU process");

    let second = spawner.spawn("image_2.qcow2".into());
    assert!(second.is_none());
    assert_eq!(spawner.running(), 1);
}

#[test]
fn never_more_machines_than_permits() {
    let mut spawner = spawner(2, true, true);
    let first = spawner.spawn("a".into()).expect("a permit is free");
    let second = spawner.spawn("b".into()).expect("a permit is free");
    assert!(spawner.spawn("c".into()).is_none());
    assert_eq!(spawner.running(), 2);
    assert_eq!(spawner.children_limit(), 2);
    let (permit, _) = first.wait(ChildExit::Success);
    spawner.release(permit);
    assert_eq!(spawner.running(), 1);
    let third = spawner.spawn("c".into()).expect("a permit is free again");
    assert!(spawner.spawn("d".into()).is_none());
    for machine in [second, third] {
        let (permit, _) = machine.wait(ChildExit::Success);
        spawner.release(permit);
    }
    assert_eq!(spawner.running(), 0);
}

#[test]
fn a_spawner_without_permits_spawns_nothing() {
    let mut spawner = spawner(0, false, false);
    assert!(spawner.spawn("a".into()).is_none());
    assert_eq!(spawner.running(), 0);
}

#[test]
fn exit_of_the_machine() {
    let mut spawner = spawner(3, true, true);
    let (_, result) = spawner.spawn("a".into()).unwrap().wait(ChildExit::Success);
    assert!(result.is_ok());
    let (_, result) = spawner.spawn("a".into()).unwrap().wait(ChildExit::Code(3));
    let error = result.unwrap_err();
    assert_eq!(error.kind, IoKind::Other);
    assert_eq!(error.message, "process exited with a non-zero code 3");
    let (_, result) = spawner.spawn("a".into()).unwrap().wait(ChildExit::Code(-1));
    assert_eq!(
        result.unwrap_err().message,
        "process exited with a non-zero code -1"
    );
}

#[test]
fn exit_by_signal() {
    let mut spawner = spawner(1, true, true);
    let (_, result) = spawner.spawn("a".into()).unwrap().wait(ChildExit::Signal);
    assert_eq!(result.unwrap_err().message, "process killed by a signal");
}

#[test]
fn hypervisor_command_line() {
    let args = spawner(1, true, true).setup_cmd("/a/image.qcow2", "/tmp/x/monitor.sock");
    assert_eq!(
        args,
        vec![
            "-nographic",
            "-drive",
            "file=/a/image.qcow2",
            "-rtc",
            "base=localtime",
            "-net",
            "nic,model=virtio",
            "-net",
            "user,hostfwd=tcp::0-:22",
            "-m",
            "1024M",
            "-monitor",
            "unix:/tmp/x/monitor.sock,server,nowait",
            "-enable-kvm",
            "-machine",
            "kernel_irqchip=off",
        ]
    );
}

#[test]
fn hypervisor_command_line_without_switches() {
    let args = spawner(1, false, false).setup_cmd("i", "s");
    assert_eq!(args.len(), 13);
    assert_eq!(args[12], "unix:s,server,nowait");
    let args = spawner(1, true, false).setup_cmd("i", "s");
    assert_eq!(args[13..], ["-enable-kvm"]);
    let args = spawner(1, false, true).setup_cmd("i", "s");
    assert_eq!(args[13..], ["-machine", "kernel_irqchip=off"]);
}

#[test]
fn memory_is_written_in_mebibytes() {
    let spawner = QemuSpawner::new(
        1,
        QemuConfig {
            cmd: "qemu".into(),
            memory: 65535,
            enable_kvm: false,
            irqchip_off: false,
        },
    );
    assert_eq!(spawner.setup_cmd("i", "s")[10], "65535M");
    let spawner = QemuSpawner::new(
        1,
        QemuConfig {
            cmd: "qemu".into(),
            memory: 0,
            enable_kvm: false,
            irqchip_off: false,
        },
    );
    assert_eq!(spawner.setup_cmd("i", "s")[10], "0M");
}

#[test]
fn image_tool_command_line() {
    let builder = ImageBuilder {
        cmd: "qemu-img".into(),
    };
    let args = builder.create(Image::Raw("/base.img"), Image::Qcow2("/a/image.qcow2"));
    assert_eq!(
        args,
        vec!["create", "-f", "qcow2", "-b", "/base.img", "-F", "raw", "/a/image.qcow2"]
    );
    let args = builder.create(Image::Qcow2("/a/1.qcow2"), Image::Qcow2("/a/2.qcow2"));
    assert_eq!(
        args,
        vec!["create", "-f", "qcow2", "-b", "/a/1.qcow2", "-F", "qcow2", "/a/2.qcow2"]
    );
}

#[test]
fn images() {
    assert_eq!(Image::Raw("a").path(), "a");
    assert_eq!(Image::Qcow2("b").path(), "b");
    assert_eq!(Image::Raw("a").format(), "raw");
    assert_eq!(Image::Qcow2("b").format(), "qcow2");
    let owned = ImageBuf::Qcow2("c".into());
    assert!(matches!(owned.as_image(), Image::Qcow2("c")));
    let owned = ImageBuf::Raw("d".into());
    assert!(matches!(owned.as_image(), Image::Raw("d")));
}
