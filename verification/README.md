# winbridge

winbridge runs the official Windows KakaoTalk client inside a headless Windows VM under
libvirt/KVM and shows it on the Linux desktop through an embedded RDP viewer, with a tray
launcher, keyboard input and a text clipboard bridge.

This repository is a Verus project.

- `src/` is the library, verified by Verus: the VM lifecycle decisions, the guest agent
  requests and replies, the domain XML reading, the doctor's checks and report, the RDP input
  mapping and session steps, the clipboard state machine, the tray menus, the desktop entries,
  the configuration files and the diagnostic bundle. Every public function states what it
  returns in its `ensures`; the laws that span functions are public proof functions.
- Calls the library makes outside itself stand behind small trusted wrappers whose doc
  comments say what is believed of them: `serde_json`, `base64` and `x509-cert`, and from std
  `String::push`, `String::from_utf8_lossy` and `Path::exists` (the one file-system query the
  library makes, when it reports whether an attached CD-ROM's source file exists).
- `app/` is the program around the library: the command line, file reading and writing, network I/O, libvirt,
  GTK, the tray and the RDP connection. It performs what the library decides.
- `tests/` runs the library on concrete values.
