# Hardware-wallet installer procedures, verified

The installer has three procedures: flashing the installer image onto a USB
device, building the image for the hardware wallets, and turning a device into
a hardware wallet. Each one is a plan of steps (commands to run, paths to look
for, the device to detect) with, for every step, when it is carried out and
what a failure makes of the whole procedure.

- `src/step.rs`: steps, commands and guards, with their mathematical values.
- `src/pre_install.rs`, `src/init_iso.rs`, `src/bootable.rs`: the three plans,
  stated as spec functions, and the functions that build their steps.
- `src/plan.rs`: the procedures as one type, `Job`.
- `src/runner.rs`: the runner that walks a plan. It asks for one action at a
  time and takes back its outcome (`Runner::start`, `Runner::advance`); its
  contract is the transition function `next`.
- `src/laws.rs`: properties of whole runs and of the plans.
- `app/`: carries out the actions on the machine (processes, files, the
  working directory).
