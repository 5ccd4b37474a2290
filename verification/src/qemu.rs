//! The hypervisor and its image tool: command lines, images, and the count
//! of machines that may run at once.

use crate::text::{decimal, decimal_text, push_text, views};
use crate::{IoFailure, IoKind};
use vstd::prelude::*;
use vstd::string::StringExecFns;

verus! {

/// A disk image, named by its path.
#[derive(Clone, Copy, Debug)]
pub enum Image<'a> {
    /// A copy-on-write image.
    Qcow2(&'a str),
    /// A raw image.
    Raw(&'a str),
}

impl<'a> Image<'a> {
    /// The path of the image, for contracts.
    pub open spec fn spec_path(self) -> &'a str {
        match self {
            Image::Qcow2(path) => path,
            Image::Raw(path) => path,
        }
    }

    /// The name of the image's format, for contracts.
    pub open spec fn spec_format(self) -> Seq<char> {
        match self {
            Image::Qcow2(_) => "qcow2"@,
            Image::Raw(_) => "raw"@,
        }
    }

    /// The path to the image file.
    pub fn path(self) -> (path: &'a str)
        ensures
            path == self.spec_path(),
    {
        match self {
            Image::Qcow2(path) => path,
            Image::Raw(path) => path,
        }
    }

    /// The name of the image's format: `qcow2` or `raw`.
    pub fn format(self) -> (format: &'static str)
        ensures
            format@ == self.spec_format(),
    {
        match self {
            Image::Qcow2(_) => "qcow2",
            Image::Raw(_) => "raw",
        }
    }
}

/// A disk image that owns its path.
#[derive(Debug)]
pub enum ImageBuf {
    /// A copy-on-write image.
    Qcow2(String),
    /// A raw image.
    Raw(String),
}

impl ImageBuf {
    /// The image, borrowed.
    pub fn as_image(&self) -> (image: Image<'_>)
        ensures
            self matches ImageBuf::Qcow2(path) ==> image is Qcow2 && image.spec_path()@ == path@,
            self matches ImageBuf::Raw(path) ==> image is Raw && image.spec_path()@ == path@,
    {
        match self {
            ImageBuf::Qcow2(path) => Image::Qcow2(path.as_str()),
            ImageBuf::Raw(path) => Image::Raw(path.as_str()),
        }
    }
}

/// The arguments that make the image tool create the image at `dst_path`, in
/// the format `dst_format`, as an overlay of the image at `src_path`, which has
/// the format `src_format`.
pub open spec fn create_args(
    src_format: Seq<char>,
    src_path: Seq<char>,
    dst_format: Seq<char>,
    dst_path: Seq<char>,
) -> Seq<Seq<char>> {
    seq!["create"@, "-f"@, dst_format, "-b"@, src_path, "-F"@, src_format, dst_path]
}

/// Builds new images with the image tool.
#[derive(Debug)]
pub struct ImageBuilder {
    /// The command of the image tool.
    pub cmd: String,
}

impl ImageBuilder {
    /// The arguments with which the image tool [`cmd`](Self::cmd) creates
    /// `dst` as an overlay backed by `src`. The source image is never written.
    pub fn create(&self, src: Image<'_>, dst: Image<'_>) -> (args: Vec<String>)
        ensures
            views(args@) == create_args(
                src.spec_format(),
                src.spec_path()@,
                dst.spec_format(),
                dst.spec_path()@,
            ),
    {
        let mut args: Vec<String> = Vec::new();
        assert(views(args@) =~= Seq::<Seq<char>>::empty());
        push_text(&mut args, "create");
        push_text(&mut args, "-f");
        push_text(&mut args, dst.format());
        push_text(&mut args, "-b");
        push_text(&mut args, src.path());
        push_text(&mut args, "-F");
        push_text(&mut args, src.format());
        push_text(&mut args, dst.path());
        assert(views(args@) =~= create_args(
            src.spec_format(),
            src.spec_path()@,
            dst.spec_format(),
            dst.spec_path()@,
        ));
        args
    }
}

/// Settings for starting the hypervisor.
#[derive(Debug)]
pub struct QemuConfig {
    /// The command of the hypervisor.
    pub cmd: String,
    /// The memory of a machine, in mebibytes.
    pub memory: u16,
    /// Whether machines run with KVM.
    pub enable_kvm: bool,
    /// Whether the kernel's irqchip is switched off.
    pub irqchip_off: bool,
}

/// The arguments that start the hypervisor on the image at `image` with its
/// monitor on the UNIX socket at `socket`.
pub open spec fn setup_args(config: QemuConfig, image: Seq<char>, socket: Seq<char>) -> Seq<
    Seq<char>,
> {
    seq![
        "-nographic"@,
        "-drive"@,
        "file="@ + image,
        "-rtc"@,
        "base=localtime"@,
        "-net"@,
        "nic,model=virtio"@,
        "-net"@,
        "user,hostfwd=tcp::0-:22"@,
        "-m"@,
        decimal_text(config.memory as nat) + "M"@,
        "-monitor"@,
        "unix:"@ + socket + ",server,nowait"@,
    ] + (if config.enable_kvm {
        seq!["-enable-kvm"@]
    } else {
        seq![]
    }) + (if config.irqchip_off {
        seq!["-machine"@, "kernel_irqchip=off"@]
    } else {
        seq![]
    })
}

/// The right to run one machine. A permit comes from
/// [`QemuSpawner::spawn`] inside a [`QemuInstance`] and leaves the instance
/// only through [`QemuInstance::wait`], once the machine's process has ended.
#[derive(Debug)]
pub struct Permit {
    token: (),
}

/// How the process of a machine ended.
#[derive(Clone, Copy, Debug)]
pub enum ChildExit {
    /// It ended and reported success.
    Success,
    /// It ended with this exit code.
    Code(i32),
    /// It was ended by a signal.
    Signal,
}

/// The message of the failure that a machine's process ended with.
pub open spec fn exit_message(exit: ChildExit) -> Seq<char> {
    match exit {
        ChildExit::Success => Seq::empty(),
        ChildExit::Code(code) => "process exited with a non-zero code "@
            + crate::text::signed_decimal_text(code as int),
        ChildExit::Signal => "process killed by a signal"@,
    }
}

/// A running machine: the image it runs on and the permit it holds.
#[derive(Debug)]
pub struct QemuInstance {
    permit: Permit,
    image_path: String,
}

impl QemuInstance {
    /// The path of the image, for contracts.
    pub closed spec fn spec_image_path(&self) -> String {
        self.image_path
    }

    /// The path to the image that the machine runs on.
    pub fn image_path(&self) -> (path: &String)
        ensures
            *path == self.spec_image_path(),
    {
        &self.image_path
    }

    /// Ends the life of the handle once the machine's process has ended, and
    /// hands the permit back for release. The result is `Ok` where the
    /// process reported success and an error that names the exit otherwise.
    pub fn wait(self, exit: ChildExit) -> (end: (Permit, Result<(), IoFailure>))
        ensures
            exit is Success <==> end.1 is Ok,
            end.1 matches Err(error) ==> error.kind == IoKind::Other && error.message@
                == exit_message(exit),
    {
        let result = match exit {
            ChildExit::Success => Ok(()),
            ChildExit::Code(code) => {
                let mut message = "process exited with a non-zero code ".to_owned();
                message.append(crate::text::signed_decimal(code).as_str());
                Err(IoFailure { kind: IoKind::Other, message })
            },
            ChildExit::Signal => Err(
                IoFailure { kind: IoKind::Other, message: "process killed by a signal".to_owned() },
            ),
        };
        (self.permit, result)
    }
}

/// The number of permits in use after one was asked for.
pub open spec fn live_after_spawn(limit: nat, live: nat) -> nat {
    if live < limit {
        live + 1
    } else {
        live
    }
}

/// The number of permits in use after one was handed back.
pub open spec fn live_after_release(live: nat) -> nat {
    if live > 0 {
        (live - 1) as nat
    } else {
        0
    }
}

/// A request to a spawner.
pub enum PermitOp {
    /// A permit is asked for.
    Spawn,
    /// A permit is handed back.
    Release,
}

/// The number of permits in use after the requests `ops` reached a new
/// spawner with `limit` permits, one after the other.
pub open spec fn live_after(limit: nat, ops: Seq<PermitOp>) -> nat
    decreases ops.len(),
{
    if ops.len() == 0 {
        0
    } else {
        let before = live_after(limit, ops.drop_last());
        match ops.last() {
            PermitOp::Spawn => live_after_spawn(limit, before),
            PermitOp::Release => live_after_release(before),
        }
    }
}

/// Whatever is asked of a spawner, and in whatever order, the number of
/// machines that hold a permit never exceeds the limit.
pub proof fn lemma_live_within_limit(limit: nat, ops: Seq<PermitOp>)
    ensures
        live_after(limit, ops) <= limit,
    decreases ops.len(),
{
    if ops.len() > 0 {
        lemma_live_within_limit(limit, ops.drop_last());
    }
}

/// Hands out the permits for running machines, never more than a fixed number
/// at a time, and knows the hypervisor's command line.
#[derive(Debug)]
pub struct QemuSpawner {
    limit: usize,
    live: usize,
    config: QemuConfig,
}

impl QemuSpawner {
    /// The greatest number of machines that may run at once.
    pub closed spec fn limit(&self) -> nat {
        self.limit as nat
    }

    /// The number of machines that hold a permit.
    pub closed spec fn live(&self) -> nat {
        self.live as nat
    }

    /// The hypervisor settings.
    pub closed spec fn config(&self) -> QemuConfig {
        self.config
    }

    #[verifier::type_invariant]
    spec fn inv(&self) -> bool {
        self.live <= self.limit
    }

    /// A spawner that lets at most `children_limit` machines run at once.
    pub fn new(children_limit: usize, config: QemuConfig) -> (spawner: Self)
        ensures
            spawner.limit() == children_limit,
            spawner.live() == 0,
            spawner.config() == config,
    {
        QemuSpawner { limit: children_limit, live: 0, config }
    }

    /// The greatest number of machines that may run at once.
    pub fn children_limit(&self) -> (limit: usize)
        ensures
            limit == self.limit(),
            self.live() <= self.limit(),
    {
        proof {
            use_type_invariant(self);
        }
        self.limit
    }

    /// The number of machines that hold a permit. It never exceeds the limit.
    pub fn running(&self) -> (live: usize)
        ensures
            live == self.live(),
            self.live() <= self.limit(),
    {
        proof {
            use_type_invariant(self);
        }
        self.live
    }

    /// The arguments that start the hypervisor on `image_path`, with its
    /// monitor listening on the UNIX socket `monitor_socket`: no graphics,
    /// the image as drive, the clock on local time, a virtio network card,
    /// user-mode network with a free host port forwarded to the guest's
    /// port 22, the configured memory, and the two optional switches.
    pub fn setup_cmd(&self, image_path: &str, monitor_socket: &str) -> (args: Vec<String>)
        ensures
            views(args@) == setup_args(self.config(), image_path@, monitor_socket@),
    {
        let mut drive = "file=".to_owned();
        drive.append(image_path);
        let mut memory = decimal(self.config.memory as u128);
        memory.append("M");
        let mut monitor = "unix:".to_owned();
        monitor.append(monitor_socket);
        monitor.append(",server,nowait");

        let mut args: Vec<String> = Vec::new();
        assert(views(args@) =~= Seq::<Seq<char>>::empty());
        push_text(&mut args, "-nographic");
        push_text(&mut args, "-drive");
        push_text(&mut args, drive.as_str());
        push_text(&mut args, "-rtc");
        push_text(&mut args, "base=localtime");
        push_text(&mut args, "-net");
        push_text(&mut args, "nic,model=virtio");
        push_text(&mut args, "-net");
        push_text(&mut args, "user,hostfwd=tcp::0-:22");
        push_text(&mut args, "-m");
        push_text(&mut args, memory.as_str());
        push_text(&mut args, "-monitor");
        push_text(&mut args, monitor.as_str());
        if self.config.enable_kvm {
            push_text(&mut args, "-enable-kvm");
        }
        if self.config.irqchip_off {
            push_text(&mut args, "-machine");
            push_text(&mut args, "kernel_irqchip=off");
        }
        assert(views(args@) =~= setup_args(self.config(), image_path@, monitor_socket@));
        args
    }

    /// Takes a permit for a machine on `image_path`, if one is free. With
    /// every permit taken the state stays as it is and the caller has to wait
    /// for a release.
    pub fn spawn(&mut self, image_path: String) -> (instance: Option<QemuInstance>)
        ensures
            final(self).limit() == old(self).limit(),
            final(self).config() == old(self).config(),
            final(self).live() <= final(self).limit(),
            instance is Some <==> old(self).live() < old(self).limit(),
            final(self).live() == live_after_spawn(old(self).limit(), old(self).live()),
            instance matches Some(machine) ==> machine.spec_image_path() == image_path,
    {
        proof {
            use_type_invariant(&*self);
        }
        if self.live < self.limit {
            self.live = self.live + 1;
            Some(QemuInstance { permit: Permit { token: () }, image_path })
        } else {
            None
        }
    }

    /// Takes back the permit of a machine whose process has ended.
    pub fn release(&mut self, permit: Permit)
        ensures
            final(self).limit() == old(self).limit(),
            final(self).config() == old(self).config(),
            final(self).live() <= final(self).limit(),
            final(self).live() == live_after_release(old(self).live()),
    {
        proof {
            use_type_invariant(&*self);
        }
        if self.live > 0 {
            self.live = self.live - 1;
        }
    }
}

} // verus!
