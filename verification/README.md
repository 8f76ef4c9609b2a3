# mmd

mmd is a native daemon that manages zram: it sets zram up when it starts, and recompresses and
writes back pages of the zram device when it is asked to do maintenance.

`src/` is the library. It decides everything and touches nothing: each procedure returns a
`Step`, which names either the next action on the device or the result. The caller performs the
action and resumes the procedure with the outcome. Verus proves what each step is, and what whole
runs of a procedure come to, whatever the device answers.

* `text`: numbers in decimal, and lines of text.
* `step`: what a procedure wants next.
* `zram::setup`: is zram on, how large shall it be, and its activation.
* `zram::recompression`: recompression passes.
* `zram::writeback`, `zram::stats`: what writeback goes by.
* `setup_zram`, `startup`: the start of the daemon.
* `service`: zram maintenance.

`app/` is the daemon around the library: the files of the zram device, swap operations, system
properties, the log and binder. `app/android.rs` needs the crates of the Android platform.
